use tunnelize::common::validate::{Rule, RuleFor, Validation};
use tunnelize::common::validate_rules::{
    AlphaNumericOnly, FileMustExist, HostAddressMustBeValid, HostnameTemplatemustBeValid,
    IpAddressMustBeValid, IpTemplateMustBeValid, MustBeGreaterThanZero, MustNotBeEmptyString,
    PortHostnameTemplatemustBeValid, PortMustBeValid, UrlTemplateMustBeValid,
};

fn assert_field_error(validation: &Validation, field: &str, expected_error: &str) {
    let errors = validation.errors();

    let mut found = false;
    let check = format!("{}: {}", field, expected_error);
    for error in errors {
        if error.contains(&check) {
            found = true;
            break;
        }
    }

    assert!(found);
}

#[test]
fn test_file_must_exist_invalid() {
    let mut validation = Validation::new();
    FileMustExist::validate("file", &"".to_string(), &mut validation);
    assert!(!validation.is_valid());
    assert_field_error(&validation, "file", "Value cannot be empty.");

    validation = Validation::new();
    FileMustExist::validate("file", &"/invalid/path".to_string(), &mut validation);
    assert!(!validation.is_valid());
    assert_field_error(
        &validation,
        "file",
        "File '/invalid/path' does not exist or is invalid.",
    );
}

#[test]
fn test_port_must_be_valid_invalid() {
    let mut validation = Validation::new();
    PortMustBeValid::validate("port", &0, &mut validation);
    assert!(!validation.is_valid());
    assert_field_error(&validation, "port", "Port cannot be zero.");
}

#[test]
fn test_port_must_be_valid_valid() {
    let mut validation = Validation::new();
    PortMustBeValid::validate("port", &8080, &mut validation);
    assert!(validation.is_valid());
}

#[test]
fn test_host_address_must_be_valid_invalid() {
    let mut validation = Validation::new();
    HostAddressMustBeValid::validate("host", &"invalid host!".to_string(), &mut validation);
    assert!(!validation.is_valid());
    assert_field_error(
        &validation,
        "host",
        "Can only contain alphanumeric characters, hyphens, and periods.",
    );
}

#[test]
fn test_host_address_must_be_valid_valid() {
    let mut validation = Validation::new();
    HostAddressMustBeValid::validate("host", &"valid-host.com".to_string(), &mut validation);
    assert!(validation.is_valid());
}

#[test]
fn test_ip_address_must_be_valid_invalid() {
    let mut validation = Validation::new();
    IpAddressMustBeValid::validate("ip", &"invalid_ip".to_string(), &mut validation);
    assert!(!validation.is_valid());
    assert_field_error(&validation, "ip", "Value must be a valid IP address.");
}

#[test]
fn test_ip_address_must_be_valid_valid() {
    let mut validation = Validation::new();
    IpAddressMustBeValid::validate("ip", &"192.168.1.1".to_string(), &mut validation);
    assert!(validation.is_valid());
}

#[test]
fn test_alpha_numeric_only_invalid() {
    let mut validation = Validation::new();
    AlphaNumericOnly::validate("alpha", &"invalid@chars".to_string(), &mut validation);
    assert!(!validation.is_valid());
    assert_field_error(
        &validation,
        "alpha",
        "Can only contain alphanumeric characters and hyphens.",
    );
}

#[test]
fn test_alpha_numeric_only_valid() {
    let mut validation = Validation::new();
    AlphaNumericOnly::validate("alpha", &"valid-chars".to_string(), &mut validation);
    assert!(validation.is_valid());
}

#[test]
fn test_ip_template_must_be_valid_invalid() {
    let mut validation = Validation::new();
    IpTemplateMustBeValid::validate("template", &"invalid_template".to_string(), &mut validation);
    assert!(!validation.is_valid());
    assert_field_error(
        &validation,
        "template",
        "Template must contain the {port} placeholder.",
    );
}

#[test]
fn test_ip_template_must_be_valid_valid() {
    let mut validation = Validation::new();
    IpTemplateMustBeValid::validate("template", &"192.168.1.1:{port}".to_string(), &mut validation);
    assert!(validation.is_valid());
}

#[test]
fn test_hostname_template_must_be_valid_invalid() {
    let mut validation = Validation::new();
    HostnameTemplatemustBeValid::validate(
        "template",
        &"invalid_template".to_string(),
        &mut validation,
    );
    assert!(!validation.is_valid());
    assert_field_error(
        &validation,
        "template",
        "Template must contain the {name} placeholder.",
    );
}

#[test]
fn test_hostname_template_must_be_valid_valid() {
    let mut validation = Validation::new();
    HostnameTemplatemustBeValid::validate("template", &"host-{name}".to_string(), &mut validation);
    assert!(validation.is_valid());
}

#[test]
fn test_port_hostname_template_must_be_valid_invalid() {
    let mut validation = Validation::new();
    PortHostnameTemplatemustBeValid::validate(
        "template",
        &"invalid_template".to_string(),
        &mut validation,
    );
    assert!(!validation.is_valid());
    assert_field_error(
        &validation,
        "template",
        "Template must contain the {port} placeholder.",
    );
}

#[test]
fn test_port_hostname_template_must_be_valid_valid() {
    let mut validation = Validation::new();
    PortHostnameTemplatemustBeValid::validate(
        "template",
        &"host:{port}".to_string(),
        &mut validation,
    );
    assert!(validation.is_valid());
}

#[test]
fn test_url_template_must_be_valid_invalid() {
    let mut validation = Validation::new();
    UrlTemplateMustBeValid::validate("template", &"invalid_template".to_string(), &mut validation);
    assert!(!validation.is_valid());
    assert_field_error(
        &validation,
        "template",
        "Template must contain the {port} placeholder.",
    );
}

#[test]
fn test_url_template_must_be_valid_valid() {
    let mut validation = Validation::new();
    UrlTemplateMustBeValid::validate(
        "template",
        &"http://{hostname}:{port}".to_string(),
        &mut validation,
    );
    assert!(validation.is_valid());
}

#[test]
fn test_must_be_greater_than_zero_invalid() {
    let mut validation = Validation::new();
    MustBeGreaterThanZero::validate("value", &0u16, &mut validation);
    assert!(!validation.is_valid());
    assert_field_error(&validation, "value", "Value must be greater than zero.");

    validation = Validation::new();
    MustBeGreaterThanZero::validate("value", &0u64, &mut validation);
    assert!(!validation.is_valid());
    assert_field_error(&validation, "value", "Value must be greater than zero.");

    validation = Validation::new();
    MustBeGreaterThanZero::validate("value", &0usize, &mut validation);
    assert!(!validation.is_valid());
    assert_field_error(&validation, "value", "Value must be greater than zero.");
}

#[test]
fn test_must_be_greater_than_zero_valid() {
    let mut validation = Validation::new();
    MustBeGreaterThanZero::validate("value", &1u16, &mut validation);
    assert!(validation.is_valid());

    validation = Validation::new();
    MustBeGreaterThanZero::validate("value", &1u64, &mut validation);
    assert!(validation.is_valid());

    validation = Validation::new();
    MustBeGreaterThanZero::validate("value", &1usize, &mut validation);
    assert!(validation.is_valid());
}

#[test]
fn test_must_not_be_empty_string_invalid() {
    let mut validation = Validation::new();
    MustNotBeEmptyString::validate("value", &"".to_string(), &mut validation);
    assert!(!validation.is_valid());
    assert_field_error(&validation, "value", "Value cannot be empty.");
}

#[test]
fn test_must_not_be_empty_string_valid() {
    let mut validation = Validation::new();
    MustNotBeEmptyString::validate("value", &"non-empty".to_string(), &mut validation);
    assert!(validation.is_valid());
}

#[test]
fn file_check_accepts_a_file_that_exists() {
    let mut validation = Validation::new();
    FileMustExist::check_with("file", &"/some/file".to_string(), true, &mut validation);
    assert!(validation.is_valid());
}

#[test]
fn file_check_reports_exactly_one_error() {
    let mut validation = Validation::new();
    FileMustExist::check_with("cert", &"missing.pem".to_string(), false, &mut validation);
    assert_eq!(
        validation.errors(),
        &vec!["cert: File 'missing.pem' does not exist or is invalid."]
    );
}

#[test]
fn field_errors_are_nested_under_breadcrumbs() {
    let mut validation = Validation::new();
    validation.push_breadcrumb("endpoint");
    PortMustBeValid::validate("port", &0, &mut validation);
    validation.pop_breadcrumb();
    assert_eq!(validation.errors(), &vec!["endpoint.port: Port cannot be zero."]);
}

#[test]
fn ipv6_addresses_are_valid_ip_addresses() {
    for address in ["::1", "fe80::1", "2001:db8::ff00:42:8329", "::ffff:192.168.1.1", "::"] {
        let mut validation = Validation::new();
        IpAddressMustBeValid::validate("ip", &address.to_string(), &mut validation);
        assert!(validation.is_valid(), "{}", address);
    }
}

#[test]
fn malformed_ip_addresses_are_rejected() {
    for address in ["256.1.1.1", "1.2.3", "01.2.3.4", "1.2.3.4.5", ":::", "1::2::3", ""] {
        let mut validation = Validation::new();
        IpAddressMustBeValid::validate("ip", &address.to_string(), &mut validation);
        assert!(!validation.is_valid(), "{}", address);
    }
}
