use typst_2_rsx::convert::{after_compile, after_parse, after_read};
use typst_2_rsx::error::{CompileCause, ConvertError};
use typst_2_rsx::node::UiNode;
use typst_2_rsx::svg_types::{Path, Svg, SvgEle};

const MARKUP: &str = "<svg class=\"\" width=\"100\" height=\"100\" viewBox=\"0 0 100 100\"><path d=\"M0 0L10 10\"/></svg>";

fn attr(name: &str, value: &str) -> (String, String) {
    (name.to_string(), value.to_string())
}

fn parsed_markup() -> Svg {
    Svg {
        class: String::new(),
        width: "100".to_string(),
        height: "100".to_string(),
        view_box: "0 0 100 100".to_string(),
        elements: vec![SvgEle::Path(Path { d: "M0 0L10 10".to_string(), ..Path::default() })],
    }
}

#[test]
fn conversion_with_a_stubbed_compiler_gives_the_tree() {
    after_compile(Ok(Some(0))).unwrap();
    let text = after_read(Ok(MARKUP.to_string())).unwrap();
    assert_eq!(text, MARKUP);
    let node = after_parse(Ok(parsed_markup())).unwrap();
    let expected = UiNode {
        tag: "svg".to_string(),
        attributes: vec![
            attr("class", ""),
            attr("width", "100"),
            attr("height", "100"),
            attr("viewBox", "0 0 100 100"),
        ],
        children: vec![UiNode {
            tag: "path".to_string(),
            attributes: vec![
                attr("d", "M0 0L10 10"),
                attr("class", ""),
                attr("fill", ""),
                attr("fillRule", ""),
                attr("stroke", ""),
                attr("strokeWidth", ""),
                attr("strokeLinecap", ""),
                attr("strokeLinejoin", ""),
                attr("strokeMiterlimit", ""),
            ],
            children: vec![],
        }],
    };
    assert_eq!(node, expected);
    assert_eq!(node.attribute("width").map(String::as_str), Some("100"));
    assert_eq!(node.attribute("height").map(String::as_str), Some("100"));
    assert_eq!(node.attribute("viewBox").map(String::as_str), Some("0 0 100 100"));
}

#[test]
fn compiler_exit_code_zero_lets_the_conversion_go_on() {
    assert!(matches!(after_compile(Ok(Some(0))), Ok(())));
}

#[test]
fn compiler_failure_status_ends_the_conversion() {
    assert!(matches!(
        after_compile(Ok(Some(1))),
        Err(ConvertError::TypstCompileError(CompileCause::Failed(Some(1))))
    ));
    assert!(matches!(
        after_compile(Ok(Some(-1))),
        Err(ConvertError::TypstCompileError(CompileCause::Failed(Some(-1))))
    ));
}

#[test]
fn compiler_ended_without_exit_code_ends_the_conversion() {
    assert!(matches!(
        after_compile(Ok(None)),
        Err(ConvertError::TypstCompileError(CompileCause::Failed(None)))
    ));
}

#[test]
fn compiler_that_cannot_be_started_ends_the_conversion_with_its_cause() {
    let cause = std::io::Error::new(std::io::ErrorKind::NotFound, "typst is not installed");
    match after_compile(Err(cause)) {
        Err(ConvertError::TypstCompileError(CompileCause::NotStarted(e))) => {
            assert_eq!(e.kind(), std::io::ErrorKind::NotFound);
            assert_eq!(e.to_string(), "typst is not installed");
        }
        other => panic!("unexpected outcome: {:?}", other),
    }
}

#[test]
fn read_text_is_handed_on_unchanged() {
    let text = "<svg>\r\n  <g/>\n</svg>";
    assert_eq!(after_read(Ok(text.to_string())).unwrap(), text);
    assert_eq!(after_read(Ok(String::new())).unwrap(), "");
}

#[test]
fn read_failure_ends_the_conversion_with_its_cause() {
    let cause = std::io::Error::new(std::io::ErrorKind::PermissionDenied, "no access");
    match after_read(Err(cause)) {
        Err(ConvertError::SvgReadError(e)) => {
            assert_eq!(e.kind(), std::io::ErrorKind::PermissionDenied);
            assert_eq!(e.to_string(), "no access");
        }
        other => panic!("unexpected outcome: {:?}", other),
    }
}

#[test]
fn parse_failure_ends_the_conversion_with_its_cause() {
    let cause = serde_xml_rs::Error::Custom { field: "unknown variant `circle`".to_string() };
    match after_parse(Err(cause)) {
        Err(ConvertError::SvgParseError(serde_xml_rs::Error::Custom { field })) => {
            assert_eq!(field, "unknown variant `circle`");
        }
        other => panic!("unexpected outcome: {:?}", other),
    }
}

#[test]
fn parse_failure_of_the_real_parser_is_relayed() {
    let outcome = serde_xml_rs::from_str::<u32>("<n>not a number</n>");
    let cause = outcome.unwrap_err();
    let message = cause.to_string();
    match after_parse(Err(cause)) {
        Err(ConvertError::SvgParseError(e)) => assert_eq!(e.to_string(), message),
        other => panic!("unexpected outcome: {:?}", other),
    }
}
