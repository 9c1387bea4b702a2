use soap_rs::wsdl::{WsdlDocument, WsdlError, WsdlVersion};

/// Can the WSDL module successfully parse valid inputs
#[test]
fn wsdl_parse_is_successful() {
    let samples = [
        "<definitions xmlns=\"http://schemas.xmlsoap.org/wsdl/\" name=\"StockQuote\"><types/><message name=\"GetQuoteInput\"/></definitions>",
        "<description xmlns=\"http://www.w3.org/ns/wsdl\"><types/><interface name=\"Quotes\"/></description>",
    ];

    for sample in samples {
        let mut document = WsdlDocument::new(sample.to_string());
        document.parse().expect("well-formed XML must parse");
        assert!(document.parsed);
        assert!(document.tree_present());
    }
}

/// Can the WSDL module detect the WSDL 1.1 version
#[test]
fn wsdl_can_detect_11() {
    let sample = "<definitions xmlns=\"http://schemas.xmlsoap.org/wsdl/\" name=\"StockQuote\"><types/><message name=\"GetQuoteInput\"/></definitions>";
    let mut document = WsdlDocument::new(sample.to_string());

    document.parse().expect("well-formed XML must parse");
    assert_eq!(document.version, WsdlVersion::Wsdl11);
}

/// Can the WSDL module detect the WSDL 2.0 version
#[test]
fn wsdl_can_detect_20() {
    let sample = "<description xmlns=\"http://www.w3.org/ns/wsdl\"><types/><interface name=\"Quotes\"/></description>";
    let mut document = WsdlDocument::new(sample.to_string());

    document.parse().expect("well-formed XML must parse");
    assert_eq!(document.version, WsdlVersion::Wsdl20);
}

/// A freshly constructed document is in its initial state
#[test]
fn wsdl_new_initial_state() {
    let document = WsdlDocument::new("<definitions/>".to_string());
    assert!(!document.parsed);
    assert!(!document.tree_present());
    assert_eq!(document.raw_str(), "<definitions/>");
    assert_eq!(document.version, WsdlVersion::Wsdl11);
    assert!(document.types.is_empty());
}

/// The version heuristic strips the namespace prefix off the root name
#[test]
fn wsdl_detects_20_behind_namespace_prefix() {
    let sample = "<w:description xmlns:w=\"http://www.w3.org/ns/wsdl\"><w:types/></w:description>";
    let mut document = WsdlDocument::new(sample.to_string());

    document.parse().expect("well-formed XML must parse");
    assert_eq!(document.version, WsdlVersion::Wsdl20);
}

/// A comment among the child nodes is skipped by the element filter
#[test]
fn wsdl_comment_is_skipped() {
    let sample = "<definitions><!-- comment --><types/></definitions>";
    let mut document = WsdlDocument::new(sample.to_string());

    document.parse().expect("well-formed XML must parse");
    assert_eq!(document.version, WsdlVersion::Wsdl11);
}

/// Malformed XML fails with a document parse error and leaves the defaults
#[test]
fn wsdl_malformed_input_is_parse_error() {
    let mut document = WsdlDocument::new("<definitions>".to_string());

    let result = document.parse();
    assert!(matches!(result, Err(WsdlError::DocumentParseError(_))));
    assert!(document.parsed);
    assert!(!document.tree_present());
    assert_eq!(document.version, WsdlVersion::Wsdl11);
    assert!(document.types.is_empty());
}

/// An empty input has no root element and fails the same way
#[test]
fn wsdl_empty_input_is_parse_error() {
    let mut document = WsdlDocument::new(String::new());

    let result = document.parse();
    assert!(matches!(result, Err(WsdlError::DocumentParseError(_))));
    assert!(document.parsed);
}

/// The XML parser's error converts into the document-parse kind
#[test]
fn wsdl_error_wraps_document_parse_cause() {
    let cause = sxd_document::parser::parse("<unclosed>").expect_err("must not parse");
    let wrapped = WsdlError::from(cause);
    assert!(matches!(wrapped, WsdlError::DocumentParseError(_)));
}

/// The XPath engine's error converts into the xpath kind
#[test]
fn wsdl_error_wraps_xpath_cause() {
    let wrapped = WsdlError::from(sxd_xpath::Error::NoXPath);
    assert!(matches!(wrapped, WsdlError::XPathError(_)));
}

/// An I/O error converts into the io kind
#[test]
fn wsdl_error_wraps_io_cause() {
    let cause = std::io::Error::new(std::io::ErrorKind::NotFound, "no such file");
    let wrapped = WsdlError::from(cause);
    assert!(matches!(wrapped, WsdlError::IoError(_)));
}

/// The root-name scan finds "description" wherever it stands
#[test]
fn description_scan_finds_name() {
    let names = vec![None, Some("definitions".to_string()), Some("description".to_string())];
    assert!(soap_rs::wsdl::has_description_root(&names));
}

/// The root-name scan rejects lists without "description"
#[test]
fn description_scan_rejects_other_names() {
    let names = vec![Some("definitions".to_string()), None];
    assert!(!soap_rs::wsdl::has_description_root(&names));

    let empty: Vec<Option<String>> = Vec::new();
    assert!(!soap_rs::wsdl::has_description_root(&empty));
}
