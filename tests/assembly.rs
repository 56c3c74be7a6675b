use sg_test::assembly::{check_extension, Assembly, AssemblyStep};
use sg_test::error::{BuildFailure, TestError};

fn s(x: &str) -> String {
    x.to_string()
}

#[test]
fn matching_fragments_build_in_order_then_complete() {
    let mut a = Assembly::new(s("tests/test.py"), vec![s("test.py"), s("lib/other.py")]);
    assert_eq!(a.advance(), AssemblyStep::BuildFragment(0));
    assert_eq!(a.advance(), AssemblyStep::BuildFragment(1));
    assert_eq!(a.advance(), AssemblyStep::Complete);
    assert_eq!(a.advance(), AssemblyStep::Complete);
}

#[test]
fn second_fragment_with_other_extension_aborts() {
    let mut a = Assembly::new(s("tests/test.py"), vec![s("test.py"), s("other.js")]);
    assert_eq!(a.advance(), AssemblyStep::BuildFragment(0));
    let expected = AssemblyStep::Abort(TestError::ExtensionMismatch {
        fragment: s("other.js"),
        test: s("tests/test.py"),
    });
    assert_eq!(a.advance(), expected);
    assert_eq!(a.advance(), expected);
}

#[test]
fn first_fragment_mismatch_aborts_before_any_build() {
    let mut a = Assembly::new(s("test.ts"), vec![s("test.tsx"), s("b.ts")]);
    assert_eq!(
        a.advance(),
        AssemblyStep::Abort(TestError::ExtensionMismatch {
            fragment: s("test.tsx"),
            test: s("test.ts"),
        })
    );
}

#[test]
fn no_extension_on_both_sides_matches() {
    let mut a = Assembly::new(s("dir/Makefile"), vec![s(".hidden"), s("other")]);
    assert_eq!(a.advance(), AssemblyStep::BuildFragment(0));
    assert_eq!(a.advance(), AssemblyStep::BuildFragment(1));
    assert_eq!(a.advance(), AssemblyStep::Complete);
}

#[test]
fn missing_extension_is_a_mismatch() {
    let mut a = Assembly::new(s("test.py"), vec![s("test")]);
    assert!(matches!(a.advance(), AssemblyStep::Abort(TestError::ExtensionMismatch { .. })));
}

#[test]
fn no_fragments_completes_at_once() {
    let mut a = Assembly::new(s("test.py"), vec![]);
    assert_eq!(a.advance(), AssemblyStep::Complete);
}

#[test]
fn check_extension_given_extensions() {
    assert_eq!(check_extension(&s("a.py"), &s("b.py"), &Some(s("py")), &Some(s("py"))), Ok(()));
    assert_eq!(check_extension(&s("a"), &s("b"), &None, &None), Ok(()));
    assert_eq!(
        check_extension(&s("a.js"), &s("b.py"), &Some(s("js")), &Some(s("py"))),
        Err(TestError::ExtensionMismatch {
            fragment: s("a.js"),
            test: s("b.py")
        })
    );
    assert!(check_extension(&s("a.py"), &s("b"), &Some(s("py")), &None).is_err());
}

#[test]
fn build_failures_name_the_fragment() {
    let a = Assembly::new(s("t.py"), vec![s("one.py"), s("two.py")]);
    assert_eq!(
        a.fragment_failed(1, BuildFailure::ParseErrors(vec![s("1:3 syntax error")])),
        TestError::Parse {
            fragment: s("two.py"),
            errors: vec![s("1:3 syntax error")]
        }
    );
    assert_eq!(
        a.fragment_failed(0, BuildFailure::Other(s("bad query"))),
        TestError::Construction {
            fragment: s("one.py"),
            message: s("bad query")
        }
    );
}
