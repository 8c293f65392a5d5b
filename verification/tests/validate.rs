use tunnelize::common::validate::{Rule, RuleFor, Validatable, Validation};

struct TestValidatable {
    is_valid: bool,
}

impl Validatable for TestValidatable {
    fn validate(&self, result: &mut Validation) {
        if !self.is_valid {
            result.add_error("TestValidatable is invalid");
        }
    }
}

struct Parent {
    child: TestValidatable,
}

impl Validatable for Parent {
    fn validate(&self, result: &mut Validation) {
        result.validate_child("inner", &self.child);
        result.add_error("parent check");
    }
}

struct TestRule;

impl Rule for TestRule {
    type Value = bool;

    fn validate(field: &str, value: &Self::Value, result: &mut Validation) {
        if !value {
            result.add_field_error(field, "TestRule validation failed");
        }
    }
}

struct TestRuleFor;

impl RuleFor<bool> for TestRuleFor {
    fn validate(field: &str, value: &bool, result: &mut Validation) {
        if !value {
            result.add_field_error(field, "TestRuleFor validation failed");
        }
    }
}

#[test]
fn test_validatable() {
    let valid_item = TestValidatable { is_valid: true };
    let invalid_item = TestValidatable { is_valid: false };

    let valid_result = Validation::validate(&valid_item);
    let invalid_result = Validation::validate(&invalid_item);

    assert!(valid_result.is_valid());
    assert!(!invalid_result.is_valid());
    assert_eq!(invalid_result.errors(), &vec!["TestValidatable is invalid"]);
}

#[test]
fn test_rule() {
    let mut validation = Validation::new();
    validation.validate_rule::<TestRule>("test_field", &true);
    assert!(validation.is_valid());
    validation.validate_rule::<TestRule>("test_field", &false);

    assert!(!validation.is_valid());
    assert_eq!(validation.errors().len(), 1);
    assert_eq!(validation.errors()[0], "test_field: TestRule validation failed");
}

#[test]
fn test_rule_for() {
    let mut validation = Validation::new();
    validation.validate_rule_for::<bool, TestRuleFor>("test_field", &true);
    assert!(validation.is_valid());
    validation.validate_rule_for::<bool, TestRuleFor>("test_field", &false);

    assert!(!validation.is_valid());
    assert_eq!(validation.errors().len(), 1);
    assert_eq!(validation.errors()[0], "test_field: TestRuleFor validation failed");
}

#[test]
fn test_validate_child() {
    let parent = TestValidatable { is_valid: true };
    let child = TestValidatable { is_valid: false };

    let mut validation = Validation::new();
    validation.validate_child("parent", &parent);
    validation.validate_child("child", &child);

    assert!(!validation.is_valid());
    assert_eq!(validation.errors().len(), 1);
    assert_eq!(validation.errors()[0], "child: TestValidatable is invalid");
}

#[test]
fn new_validation_is_valid_and_empty() {
    let validation = Validation::new();
    assert!(validation.is_valid());
    assert!(validation.errors().is_empty());
}

#[test]
fn errors_carry_the_whole_breadcrumb_trail() {
    let mut validation = Validation::new();
    validation.push_breadcrumb("server");
    validation.push_breadcrumb("http");
    validation.add_error("broken");
    validation.add_field_error("port", "Port cannot be zero.");
    validation.pop_breadcrumb();
    validation.add_field_error("name", "missing");
    validation.pop_breadcrumb();
    validation.add_field_error("top", "bad");
    validation.add_error("plain");
    assert_eq!(
        validation.errors(),
        &vec![
            "server.http: broken",
            "server.http.port: Port cannot be zero.",
            "server.name: missing",
            "top: bad",
            "plain",
        ]
    );
}

#[test]
fn popping_an_empty_trail_changes_nothing() {
    let mut validation = Validation::new();
    validation.pop_breadcrumb();
    validation.add_error("still plain");
    assert_eq!(validation.errors(), &vec!["still plain"]);
}

#[test]
fn nested_children_restore_the_trail() {
    let mut validation = Validation::new();
    validation.validate_child("outer", &Parent { child: TestValidatable { is_valid: false } });
    validation.add_error("after");
    assert_eq!(
        validation.errors(),
        &vec![
            "outer.inner: TestValidatable is invalid",
            "outer: parent check",
            "after",
        ]
    );
}
