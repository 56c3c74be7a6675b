use vstd::prelude::*;
use crate::error::{BuildFailure, TestError};

verus! {

/// The extension of a path, as `std::path::Path::extension` reads it.
pub uninterp spec fn path_extension(p: Seq<char>) -> Option<Seq<char>>;

pub open spec fn opt_view(o: Option<String>) -> Option<Seq<char>> {
    match o {
        Some(s) => Some(s@),
        None => None,
    }
}

/// Relies on `std::path::Path::extension`: the extension of a path, if any. The
/// extension of a `str` path is a part of it, so it is valid UTF-8.
#[verifier::external_body]
fn extension_of(path: &str) -> (r: Option<String>)
    ensures
        opt_view(r) == path_extension(path@),
{
    std::path::Path::new(path).extension().and_then(|e| e.to_str()).map(|e| e.to_string())
}

/// Checks a fragment's extension against the test file's, given both extensions.
pub fn check_extension(
    fragment: &String,
    test: &String,
    fragment_extension: &Option<String>,
    test_extension: &Option<String>,
) -> (r: Result<(), TestError>)
    ensures
        r is Ok <==> opt_view(*fragment_extension) == opt_view(*test_extension),
        r matches Err(e) ==> e == (TestError::ExtensionMismatch {
            fragment: *fragment,
            test: *test,
        }),
{
    let same = match fragment_extension {
        Some(a) => match test_extension {
            Some(b) => a.eq(b),
            None => false,
        },
        None => test_extension.is_none(),
    };
    if same {
        Ok(())
    } else {
        Err(TestError::ExtensionMismatch { fragment: fragment.clone(), test: test.clone() })
    }
}

/// The error that stops assembly when building `fragment` failed.
pub open spec fn build_error(fragment: String, failure: BuildFailure) -> TestError {
    match failure {
        BuildFailure::ParseErrors(errors) => TestError::Parse { fragment, errors },
        BuildFailure::Other(message) => TestError::Construction { fragment, message },
    }
}

/// What a test file's assembly asks for next.
#[derive(Debug, PartialEq, Eq)]
pub enum AssemblyStep {
    /// Construct the graph of the fragment at this index into the shared graph.
    BuildFragment(usize),
    /// Every fragment was built: the assertions may run.
    Complete,
    /// Assembly stops with this error; no assertion runs.
    Abort(TestError),
}

/// The assembly of a test file's fragments into its shared graph, one fragment at
/// a time and in order. Each fragment is checked against the test file's
/// extension before it is built; the builtins are merged beforehand with
/// `load_builtins_into`.
pub struct Assembly {
    test: String,
    test_extension: Option<String>,
    fragments: Vec<String>,
    next: usize,
}

impl Assembly {
    pub closed spec fn spec_test(&self) -> String {
        self.test
    }

    /// The fragments' target paths, in order.
    pub closed spec fn spec_fragments(&self) -> Seq<String> {
        self.fragments@
    }

    /// The number of fragments handed out to be built so far.
    pub closed spec fn spec_next(&self) -> nat {
        self.next as nat
    }

    pub open spec fn fragment_matches(&self, i: int) -> bool {
        path_extension(self.spec_fragments()[i]@) == path_extension(self.spec_test()@)
    }

    pub closed spec fn wf(&self) -> bool {
        &&& opt_view(self.test_extension) == path_extension(self.test@)
        &&& self.next <= self.fragments@.len()
        &&& forall|j: int| 0 <= j < self.next ==> #[trigger] self.fragment_matches(j)
    }

    /// The step that `advance` returns in this state.
    pub open spec fn next_step(&self) -> AssemblyStep {
        let i = self.spec_next() as int;
        if i < self.spec_fragments().len() {
            if self.fragment_matches(i) {
                AssemblyStep::BuildFragment(i as usize)
            } else {
                AssemblyStep::Abort(
                    TestError::ExtensionMismatch {
                        fragment: self.spec_fragments()[i],
                        test: self.spec_test(),
                    },
                )
            }
        } else {
            AssemblyStep::Complete
        }
    }

    /// The number of fragments handed out after `advance`.
    pub open spec fn next_after_step(&self) -> nat {
        if self.next_step() is BuildFragment {
            self.spec_next() + 1
        } else {
            self.spec_next()
        }
    }

    pub fn new(test: String, fragments: Vec<String>) -> (r: Assembly)
        ensures
            r.wf(),
            r.spec_test() == test,
            r.spec_fragments() == fragments@,
            r.spec_next() == 0,
    {
        let test_extension = extension_of(test.as_str());
        Assembly { test, test_extension, fragments, next: 0 }
    }

    /// The number of fragments handed out to be built so far.
    pub fn next_index(&self) -> (r: usize)
        requires
            self.wf(),
        ensures
            r == self.spec_next(),
            r <= self.spec_fragments().len(),
    {
        self.next
    }

    /// Decides the next step: the next fragment is built if its extension is the
    /// test file's, else assembly aborts naming both paths; once every fragment
    /// was built, assembly is complete. After an abort or completion the same step
    /// comes again.
    pub fn advance(&mut self) -> (r: AssemblyStep)
        requires
            old(self).wf(),
        ensures
            final(self).wf(),
            r == old(self).next_step(),
            final(self).spec_test() == old(self).spec_test(),
            final(self).spec_fragments() == old(self).spec_fragments(),
            final(self).spec_next() == old(self).next_after_step(),
    {
        if self.next >= self.fragments.len() {
            return AssemblyStep::Complete;
        }
        let i = self.next;
        let fragment_extension = extension_of(self.fragments[i].as_str());
        match check_extension(
            &self.fragments[i],
            &self.test,
            &fragment_extension,
            &self.test_extension,
        ) {
            Ok(()) => {
                self.next = i + 1;
                assert forall|j: int| 0 <= j < self.next implies #[trigger] self.fragment_matches(
                    j,
                ) by {
                    if j < i {
                        assert(old(self).fragment_matches(j));
                    }
                }
                AssemblyStep::BuildFragment(i)
            },
            Err(e) => AssemblyStep::Abort(e),
        }
    }

    /// The error that stops assembly when building the fragment at `index` failed:
    /// parse errors and other failures, each with the fragment's path.
    pub fn fragment_failed(&self, index: usize, failure: BuildFailure) -> (r: TestError)
        requires
            index < self.spec_fragments().len(),
        ensures
            r == build_error(self.spec_fragments()[index as int], failure),
    {
        let fragment = self.fragments[index].clone();
        match failure {
            BuildFailure::ParseErrors(errors) => TestError::Parse { fragment, errors },
            BuildFailure::Other(message) => TestError::Construction { fragment, message },
        }
    }
}

/// An assembly completes only once every fragment was checked: each has the test
/// file's extension.
pub proof fn lemma_complete_all_match(a: Assembly)
    requires
        a.wf(),
        a.next_step() is Complete,
    ensures
        forall|i: int| 0 <= i < a.spec_fragments().len() ==> #[trigger] a.fragment_matches(i),
{
}

/// A test file with a fragment whose extension differs from its own never
/// completes assembly, so none of its assertions runs: every step builds a
/// fragment before that one or aborts, and on reaching it the abort names that
/// fragment's path and the test file's path.
pub proof fn lemma_mismatch_never_completes(a: Assembly, i: int)
    requires
        a.wf(),
        0 <= i < a.spec_fragments().len(),
        !a.fragment_matches(i),
    ensures
        !(a.next_step() is Complete),
        a.next_step() matches AssemblyStep::BuildFragment(k) ==> k < i,
        a.spec_next() <= i,
        a.spec_next() == i ==> a.next_step() == AssemblyStep::Abort(
            TestError::ExtensionMismatch { fragment: a.spec_fragments()[i], test: a.spec_test() },
        ),
{
    if a.spec_next() > i {
        assert(a.fragment_matches(i));
    }
}

} // verus!
