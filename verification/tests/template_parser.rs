use themeprism::export::template::parser::{
    parse_template, TemplateDocument, TemplateParseError, TemplatePath, TemplatePlaceholder,
    TemplateSegment,
};

fn placeholder(namespace: &str, key: &str, filters: &[&str]) -> TemplateSegment {
    TemplateSegment::Placeholder(TemplatePlaceholder {
        path: TemplatePath {
            namespace: namespace.to_string(),
            key: key.to_string(),
        },
        filters: filters.iter().map(|f| f.to_string()).collect(),
    })
}

#[test]
fn parses_plain_text_only() {
    let ast = parse_template("plain text only").unwrap();

    assert_eq!(
        ast,
        TemplateDocument {
            segments: vec![TemplateSegment::Text("plain text only".to_string())],
        }
    );
}

#[test]
fn parses_single_placeholder() {
    let ast = parse_template("{{token.comment}}").unwrap();

    assert_eq!(
        ast,
        TemplateDocument {
            segments: vec![placeholder("token", "comment", &[])],
        }
    );
}

#[test]
fn parses_placeholder_with_whitespace() {
    let ast = parse_template("{{  token.comment   }}").unwrap();

    assert_eq!(
        ast,
        TemplateDocument {
            segments: vec![placeholder("token", "comment", &[])],
        }
    );
}

#[test]
fn parses_placeholder_with_one_filter() {
    let ast = parse_template("{{token.comment | opaque_hex}}").unwrap();

    assert_eq!(
        ast,
        TemplateDocument {
            segments: vec![placeholder("token", "comment", &["opaque_hex"])],
        }
    );
}

#[test]
fn parses_placeholder_with_multiple_filters() {
    let ast = parse_template("{{ token.comment | hex | upper }}").unwrap();

    assert_eq!(
        ast,
        TemplateDocument {
            segments: vec![placeholder("token", "comment", &["hex", "upper"])],
        }
    );
}

#[test]
fn parses_mixed_content_segments() {
    let ast = parse_template("prefix {{token.comment}} suffix").unwrap();

    assert_eq!(
        ast,
        TemplateDocument {
            segments: vec![
                TemplateSegment::Text("prefix ".to_string()),
                placeholder("token", "comment", &[]),
                TemplateSegment::Text(" suffix".to_string()),
            ],
        }
    );
}

#[test]
fn treats_non_engine_double_braces_as_literal_text() {
    let ast = parse_template("prefix {{literal braces}} suffix").unwrap();

    assert_eq!(
        ast,
        TemplateDocument {
            segments: vec![TemplateSegment::Text(
                "prefix {{literal braces}} suffix".to_string()
            )],
        }
    );
}

#[test]
fn rejects_malformed_placeholder() {
    let error = parse_template("{{token}}").unwrap_err();

    assert!(matches!(error, TemplateParseError::MalformedPlaceholder(_)));
}

#[test]
fn rejects_unclosed_placeholder() {
    let error = parse_template("{{token.comment").unwrap_err();

    assert!(matches!(
        error,
        TemplateParseError::UnclosedPlaceholder { .. }
    ));
}
