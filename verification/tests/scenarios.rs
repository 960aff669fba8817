use bool_like::decl::{Annotation, Case, DeclBody, Declaration};
use bool_like::transform::{transform, ShapeError, Transformed};

fn anno(name: &str) -> Annotation {
    Annotation { name: name.to_owned() }
}

fn case_with(name: &str, annotations: Vec<&str>) -> Case {
    Case { name: name.to_owned(), annotations: annotations.into_iter().map(anno).collect() }
}

fn enum_decl(name: &str, cases: Vec<Case>) -> Declaration {
    Declaration { name: name.to_owned(), annotations: vec![], body: DeclBody::Cases(cases) }
}

fn anno_names(case: &Case) -> Vec<String> {
    case.annotations.iter().map(|a| a.name.clone()).collect()
}

fn emitted_cases(t: &Transformed) -> &Vec<Case> {
    match &t.declaration.body {
        DeclBody::Cases(cs) => cs,
        DeclBody::Structure => panic!("a successful transformation re-emits the cases"),
    }
}

#[test]
fn player_has_no_conversions() {
    let decl = enum_decl("Player", vec![case_with("Black", vec![]), case_with("White", vec![])]);
    let t = transform(&decl).unwrap();
    assert!(t.conversions.is_none());
    assert_eq!(t.negation.target_name, "Player".to_owned());
    assert_eq!(t.negation.case1, "Black".to_owned());
    assert_eq!(t.negation.case2, "White".to_owned());
}

#[test]
fn marker_on_first_case() {
    let decl = enum_decl(
        "Answer",
        vec![case_with("No", vec!["into_false"]), case_with("Yes", vec![])],
    );
    let t = transform(&decl).unwrap();
    let conv = t.conversions.as_ref().unwrap();
    assert_eq!(conv.target_name, "Answer".to_owned());
    assert_eq!(conv.false_case, "No".to_owned());
    assert_eq!(t.negation.negate(&"No".to_owned()), "Yes".to_owned());
    assert_eq!(t.negation.negate(&"Yes".to_owned()), "No".to_owned());
    assert!(!conv.to_bool(&"No".to_owned()));
    assert!(conv.to_bool(&"Yes".to_owned()));
    assert_eq!(conv.from_bool(&t.negation, false), "No".to_owned());
    assert_eq!(conv.from_bool(&t.negation, true), "Yes".to_owned());
}

#[test]
fn marker_on_second_case_gives_identical_results() {
    let first = enum_decl(
        "Answer",
        vec![case_with("No", vec!["into_false"]), case_with("Yes", vec![])],
    );
    let second = enum_decl(
        "Answer",
        vec![case_with("Yes", vec![]), case_with("No", vec!["into_false"])],
    );
    let ta = transform(&first).unwrap();
    let tb = transform(&second).unwrap();
    let ca = ta.conversions.as_ref().unwrap();
    let cb = tb.conversions.as_ref().unwrap();
    // declaration order does not decide which case is false; only the marker does
    assert_eq!(ca.false_case, cb.false_case);
    for v in ["No", "Yes"] {
        assert_eq!(
            ta.negation.negate(&v.to_owned()),
            tb.negation.negate(&v.to_owned())
        );
        assert_eq!(ca.to_bool(&v.to_owned()), cb.to_bool(&v.to_owned()));
    }
    for b in [false, true] {
        assert_eq!(ca.from_bool(&ta.negation, b), cb.from_bool(&tb.negation, b));
    }
}

#[test]
fn marker_is_stripped_from_emitted_declaration() {
    let decl = enum_decl(
        "Answer",
        vec![
            case_with("No", vec!["doc", "into_false", "into_false", "serde"]),
            case_with("Yes", vec!["doc"]),
        ],
    );
    let t = transform(&decl).unwrap();
    let cases = emitted_cases(&t);
    // every false-marker leaves the marked case; decorative annotations stay in order
    assert_eq!(anno_names(&cases[0]), vec!["doc".to_owned(), "serde".to_owned()]);
    assert_eq!(anno_names(&cases[1]), vec!["doc".to_owned()]);
    assert_eq!(cases[0].name, "No".to_owned());
    assert_eq!(cases[1].name, "Yes".to_owned());
}

#[test]
fn only_first_marked_case_is_honored() {
    let decl = enum_decl(
        "Answer",
        vec![case_with("No", vec!["into_false"]), case_with("Yes", vec!["into_false"])],
    );
    let t = transform(&decl).unwrap();
    let conv = t.conversions.as_ref().unwrap();
    assert_eq!(conv.false_case, "No".to_owned());
    let cases = emitted_cases(&t);
    // the first marked case is stripped; the later marker is left untouched
    assert!(anno_names(&cases[0]).is_empty());
    assert_eq!(anno_names(&cases[1]), vec!["into_false".to_owned()]);
}

#[test]
fn declaration_annotations_are_preserved() {
    let mut decl = enum_decl(
        "Answer",
        vec![case_with("No", vec!["into_false"]), case_with("Yes", vec![])],
    );
    decl.annotations = vec![anno("derive"), anno("doc")];
    let t = transform(&decl).unwrap();
    let names: Vec<String> = t.declaration.annotations.iter().map(|a| a.name.clone()).collect();
    assert_eq!(names, vec!["derive".to_owned(), "doc".to_owned()]);
    assert_eq!(t.declaration.name, "Answer".to_owned());
}

#[test]
fn one_case_is_rejected() {
    let decl = enum_decl("Lonely", vec![case_with("Only", vec![])]);
    assert_eq!(transform(&decl).unwrap_err(), ShapeError::WrongArity(1));
}

#[test]
fn three_cases_are_rejected() {
    let decl = enum_decl(
        "Signal",
        vec![
            case_with("Red", vec![]),
            case_with("Amber", vec![]),
            case_with("Green", vec![]),
        ],
    );
    let err = transform(&decl).unwrap_err();
    assert_eq!(err, ShapeError::WrongArity(3));
    assert_eq!(
        err.message(),
        "the bool_like transformation requires an enum with exactly two cases".to_owned()
    );
}

#[test]
fn structure_is_rejected() {
    let decl = Declaration {
        name: "Point".to_owned(),
        annotations: vec![],
        body: DeclBody::Structure,
    };
    let err = transform(&decl).unwrap_err();
    assert_eq!(err, ShapeError::NotEnumType);
    assert_eq!(
        err.message(),
        "the bool_like transformation can only be applied to enums".to_owned()
    );
}

#[test]
fn zero_cases_are_rejected() {
    let decl = enum_decl("Never", vec![]);
    assert_eq!(transform(&decl).unwrap_err(), ShapeError::WrongArity(0));
}
