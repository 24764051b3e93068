use svg2polylines::{
    matrix_body, matrix_elements, matrix_of, parse_xml, path_of, select_path, Attribute, Error,
    Markup, Matrix, Tag,
};

#[test]
fn test_parse_xml_single() {
    let input = r#"
        <?xml version="1.0" encoding="UTF-8" standalone="no"?>
        <svg xmlns="http://www.w3.org/2000/svg" version="1.1">
            <path d="M 10,100 40,70 h 10 m -20,40 10,-20" />
        </svg>
    "#
    .trim();
    let result = parse_xml(input).unwrap();
    assert_eq!(result, vec![("M 10,100 40,70 h 10 m -20,40 10,-20".to_string(), None)]);
}

#[test]
fn test_parse_xml_multiple() {
    let input = r#"
        <?xml version="1.0" encoding="UTF-8" standalone="no"?>
        <svg xmlns="http://www.w3.org/2000/svg" version="1.1">
            <path d="M 10,100 40,70 h 10 m -20,40 10,-20" />
            <path d="M 20,30" />
        </svg>
    "#
    .trim();
    let result = parse_xml(input).unwrap();
    assert_eq!(
        result,
        vec![
            ("M 10,100 40,70 h 10 m -20,40 10,-20".to_string(), None),
            ("M 20,30".to_string(), None),
        ]
    );
}

/// If multiple "d" attributes are found, simply use the first one.
#[test]
fn test_parse_xml_duplicate_attr() {
    let input = r#"
        <?xml version="1.0" encoding="UTF-8" standalone="no"?>
        <svg xmlns="http://www.w3.org/2000/svg" version="1.1">
            <path d="M 20,30" d="M 10,100 40,70 h 10 m -20,40 10,-20"/>
        </svg>
    "#
    .trim();
    let result = parse_xml(input).unwrap();
    assert_eq!(result, vec![("M 20,30".to_string(), None)]);
}

#[test]
fn test_parse_xml_with_transform() {
    let input = r#"
        <?xml version="1.0" encoding="UTF-8" standalone="no"?>
        <svg xmlns="http://www.w3.org/2000/svg" version="1.1">
            <path d="M 20,30" transform="matrix(1 0 0 1 0 0)"/>
            <path d="M 30,40"/>
        </svg>
    "#
    .trim();
    let result = parse_xml(input).unwrap();
    assert_eq!(
        result,
        vec![
            ("M 20,30".to_string(), Some("matrix(1 0 0 1 0 0)".to_string())),
            ("M 30,40".to_string(), None)
        ],
    );
}

#[test]
fn test_parse_xml_malformed() {
    let input = r#"
        <svg xmlns="http://www.w3.org/2000/svg" version="1.1">
            <path d="M 20,30" d="M 10,100 40,70 h 10 m -20,40 10,-20"/>
        </baa>
    "#
    .trim();
    let result = parse_xml(input);
    assert_eq!(
        result.unwrap_err().message(),
        "SVG parse error: Expecting </svg> found </baa>",
    );
}

#[test]
fn paths_without_data_and_other_elements_are_skipped() {
    let input = r#"<svg><g><path transform="matrix(1 0 0 1 0 0)"/><rect d="M 1,1"/>
        <path id="a" d="M 1,2 &amp; 3"></path>text</g></svg>"#;
    let result = parse_xml(input).unwrap();
    assert_eq!(result, vec![("M 1,2 & 3".to_string(), None)]);
    assert_eq!(parse_xml("").unwrap(), vec![]);
}

#[test]
fn matrix_elements_are_framed() {
    assert_eq!(
        matrix_elements("  matrix(1 0\t0 1\n3 -5.0) ").unwrap(),
        vec!["1", "0", "0", "1", "3", "-5.0"]
    );
    assert_eq!(matrix_elements("matrix()").unwrap(), Vec::<String>::new());
    assert_eq!(matrix_elements("matrix(   )").unwrap(), Vec::<String>::new());
    // Whitespace is what Unicode calls so.
    assert_eq!(
        matrix_elements("\u{2003}matrix(1\u{a0}2\u{3000} 3)\u{2028}").unwrap(),
        vec!["1", "2", "3"]
    );
    assert_eq!(matrix_elements("matrix(a b)").unwrap(), vec!["a", "b"]);
}

#[test]
fn other_transforms_are_refused() {
    let error = matrix_elements(" translate(2 -4) ").unwrap_err();
    assert!(matches!(error, Error::Transform(_)));
    assert_eq!(
        error.message(),
        "Transform error: Only 'matrix' transform supported in transform 'translate(2 -4)'"
    );
    let error = matrix_elements("matrix(1 0 0 1 0 0").unwrap_err();
    assert!(matches!(error, Error::Transform(_)));
    assert_eq!(
        error.message(),
        "Transform error: Missing closing parenthesis in transform 'matrix(1 0 0 1 0 0'"
    );
    let error = matrix_elements("matrix(").unwrap_err();
    assert_eq!(error.message(), "Transform error: Missing closing parenthesis in transform 'matrix('");
}

#[test]
fn every_error_kind_has_its_text() {
    assert_eq!(Error::SvgParse("a".to_string()).message(), "SVG parse error: a");
    assert_eq!(Error::Usvg("b".to_string()).message(), "Could not simplify SVG with usvg: b");
    assert_eq!(Error::PathParse("c".to_string()).message(), "SVG path parse error: c");
    assert_eq!(Error::Polyline("d".to_string()).message(), "Polyline error: d");
    assert_eq!(Error::Transform("e".to_string()).message(), "Transform error: e");
}

#[test]
fn matrix_body_is_what_stands_in_the_parentheses() {
    assert_eq!(matrix_body("matrix(1 0 0 1 3 -5.0)").unwrap(), "1 0 0 1 3 -5.0");
    assert_eq!(matrix_body("matrix( a )").unwrap(), " a ");
    assert_eq!(matrix_body("matrix()").unwrap(), "");
    assert!(matches!(matrix_body(" matrix(1)"), Err(Error::Transform(_))));
    assert!(matches!(matrix_body("matrix(1) "), Err(Error::Transform(_))));
    assert!(matches!(matrix_body(""), Err(Error::Transform(_))));
}

fn whole(text: &String) -> Option<i32> {
    text.parse().ok()
}

fn texts(words: &[&str]) -> Vec<String> {
    words.iter().map(|w| w.to_string()).collect()
}

#[test]
fn matrix_takes_six_numbers() {
    let m = matrix_of(&texts(&["1", "2", "3", "4", "5", "-6"]), "matrix(..)", &whole).unwrap();
    assert_eq!(m, Matrix { a: 1, b: 2, c: 3, d: 4, e: 5, f: -6 });
    let error = matrix_of(&texts(&["1", "2", "3", "4", "5"]), "matrix(..)", &whole).unwrap_err();
    assert_eq!(
        error.message(),
        "Transform error: Invalid number of matrix elements in transform 'matrix(..)'"
    );
    let error = matrix_of(&texts(&[]), "matrix()", &whole).unwrap_err();
    assert!(matches!(error, Error::Transform(_)));
    // An element that is no number is reported before the count.
    let error = matrix_of(&texts(&["1", "x"]), "matrix(1 x)", &whole).unwrap_err();
    assert_eq!(error.message(), "Transform error: Invalid matrix elements in transform 'matrix(1 x)'");
    let error = matrix_of(&texts(&["1", "2", "3", "4", "5", "6", "x"]), "t", &whole).unwrap_err();
    assert!(matches!(error, Error::Transform(_)));
}

fn attribute(key: &str, value: Option<&str>) -> Option<Attribute> {
    Some(Attribute { key: key.as_bytes().to_vec(), value: value.map(str::to_string) })
}

#[test]
fn attributes_select_data_and_transform() {
    let attributes = vec![
        attribute("id", Some("a")),
        attribute("d", Some("M 1,2")),
        None,
        attribute("transform", Some("matrix(1 0 0 1 0 0)")),
        attribute("dd", Some("M 9,9")),
    ];
    assert_eq!(
        select_path(&attributes),
        (Some("M 1,2".to_string()), Some("matrix(1 0 0 1 0 0)".to_string()))
    );
    // A later attribute of the same key replaces an earlier one, also with
    // a value that is no text.
    let attributes = vec![
        attribute("d", Some("M 1,2")),
        attribute("transform", Some("t")),
        attribute("d", Some("M 3,4")),
        attribute("transform", None),
    ];
    assert_eq!(select_path(&attributes), (Some("M 3,4".to_string()), None));
    assert_eq!(select_path(&vec![]), (None, None));
}

#[test]
fn only_path_elements_with_data_yield_a_path() {
    let tag = |name: &str, attributes: Vec<Option<Attribute>>| Tag {
        name: name.as_bytes().to_vec(),
        attributes,
    };
    // An element with content and one without count alike.
    assert_eq!(
        path_of(&Markup::Start(tag("path", vec![attribute("d", Some("M 1,2"))]))),
        Some(("M 1,2".to_string(), None))
    );
    assert_eq!(
        path_of(&Markup::Empty(tag("path", vec![attribute("d", Some("M 1,2"))]))),
        Some(("M 1,2".to_string(), None))
    );
    assert_eq!(path_of(&Markup::Empty(tag("path", vec![attribute("transform", Some("t"))]))), None);
    assert_eq!(path_of(&Markup::Empty(tag("path", vec![attribute("d", None)]))), None);
    assert_eq!(path_of(&Markup::Start(tag("paths", vec![attribute("d", Some("M 1,2"))]))), None);
    assert_eq!(path_of(&Markup::Empty(tag("pat", vec![attribute("d", Some("M 1,2"))]))), None);
    assert_eq!(path_of(&Markup::Other), None);
    assert_eq!(path_of(&Markup::Eof), None);
    assert_eq!(path_of(&Markup::Failure("broken".to_string())), None);
}

#[test]
fn transform_faults_are_transform_errors() {
    for text in ["matrix(1 0 0 1 0 0", "matrix(1 0 0 1 0 x)", "matrix(1 0 0 1 0)", "scale(2)"] {
        let error = svg2polylines::parse_transform(text, &whole).unwrap_err();
        assert!(matches!(error, Error::Transform(_)), "{}", text);
    }
}
