use postboy_sync::environment::{Environment, Globals, Variable, VariableResolver, VariableType};

fn pairs(items: &[(&str, &str)]) -> Vec<(String, String)> {
    items.iter().map(|(k, v)| (k.to_string(), v.to_string())).collect()
}

#[test]
fn test_environment_creation() {
    let env = Environment::new("Production".to_string());
    assert_eq!(env.name, "Production");
    assert_eq!(env.values.len(), 0);
    assert!(!env.is_active);
}

#[test]
fn test_environment_variables() {
    let mut env = Environment::new("Dev".to_string());
    env.add_variable("base_url".to_string(), "https://api.dev.com".to_string());
    env.add_variable("api_key".to_string(), "secret123".to_string());
    assert_eq!(env.get("base_url"), Some("https://api.dev.com".to_string()));
    assert_eq!(env.get("api_key"), Some("secret123".to_string()));
    assert_eq!(env.get("nonexistent"), None);
}

#[test]
fn test_environment_set() {
    let mut env = Environment::new("Test".to_string());
    env.set("key1".to_string(), "value1".to_string());
    assert_eq!(env.get("key1"), Some("value1".to_string()));
    env.set("key1".to_string(), "value2".to_string());
    assert_eq!(env.get("key1"), Some("value2".to_string()));
    assert_eq!(env.values.len(), 1);
}

#[test]
fn test_environment_unset() {
    let mut env = Environment::new("Test".to_string());
    env.add_variable("key1".to_string(), "value1".to_string());
    assert!(env.unset("key1"));
    assert!(!env.unset("key1"));
    assert_eq!(env.get("key1"), None);
}

#[test]
fn environment_test_variable_types() {
    let normal = Variable::new("key".to_string(), "value".to_string());
    assert!(!normal.is_secret());
    let secret = Variable::secret("api_key".to_string(), "secret".to_string());
    assert!(secret.is_secret());
    assert_eq!(secret.display_value(), "••••••••");
}

#[test]
fn test_variable_resolver() {
    let env_vars = pairs(&[("base_url", "https://api.example.com")]);
    let global_vars = pairs(&[("version", "v1")]);
    let resolver = VariableResolver::new().with_environment(env_vars).with_globals(global_vars);
    let url = resolver.resolve("{{base_url}}/users");
    assert_eq!(url, "https://api.example.com/users");
    let versioned = resolver.resolve("{{base_url}}/{{version}}");
    assert_eq!(versioned, "https://api.example.com/v1");
}

#[test]
fn test_variable_resolution_priority() {
    let env_vars = pairs(&[("key", "env_value")]);
    let global_vars = pairs(&[("key", "global_value")]);
    let resolver = VariableResolver::new().with_environment(env_vars).with_globals(global_vars);
    let result = resolver.resolve("{{key}}");
    assert_eq!(result, "env_value");
}

#[test]
fn test_globals() {
    let mut globals = Globals::new();
    globals.set("api_key".to_string(), "global_key".to_string());
    assert_eq!(globals.get("api_key"), Some("global_key".to_string()));
    globals.set("api_key".to_string(), "new_key".to_string());
    assert_eq!(globals.get("api_key"), Some("new_key".to_string()));
    assert!(globals.unset("api_key"));
    assert_eq!(globals.get("api_key"), None);
}

#[test]
fn test_environment_duplicate() {
    let original = Environment::new("Production".to_string())
        .with_values(vec![Variable::new("key1".to_string(), "value1".to_string())])
        .with_active(true);
    let copy = original.duplicate();
    assert_ne!(original.id, copy.id);
    assert_eq!(copy.name, "Production (Copy)");
    assert!(!copy.is_active);
    assert_eq!(copy.values.len(), 1);
}

#[test]
fn unknown_placeholders_stay_and_text_around_is_kept() {
    let resolver = VariableResolver::new().with_environment(pairs(&[("a", "1")]));
    assert_eq!(resolver.resolve("x{{a}}y{{b}}z"), "x1y{{b}}z");
    assert_eq!(resolver.resolve("no placeholders"), "no placeholders");
    assert_eq!(resolver.resolve(""), "");
    assert_eq!(resolver.resolve("{{ a }}"), "{{ a }}");
}

#[test]
fn later_pairs_override_earlier_ones() {
    let resolver = VariableResolver::new().with_environment(pairs(&[("k", "old"), ("k", "new")]));
    assert_eq!(resolver.resolve("{{k}}"), "new");
}

#[test]
fn system_variables_are_not_placeholder_names() {
    let resolver = VariableResolver::new();
    assert_eq!(resolver.resolve("{{$guid}}"), "{{$guid}}");
    let mut refreshed = VariableResolver::default();
    refreshed.refresh_system_vars();
    assert_eq!(refreshed.resolve("{{timestamp}}"), "{{timestamp}}");
}

#[test]
fn recursive_resolution_follows_nested_values() {
    let resolver = VariableResolver::new()
        .with_environment(pairs(&[("url", "{{host}}/api"), ("host", "{{scheme}}://h")]))
        .with_globals(pairs(&[("scheme", "https")]));
    assert_eq!(resolver.resolve("{{url}}"), "{{host}}/api");
    assert_eq!(resolver.resolve_recursive("{{url}}", 1), "{{host}}/api");
    assert_eq!(resolver.resolve_recursive("{{url}}", 2), "{{scheme}}://h/api");
    assert_eq!(resolver.resolve_recursive("{{url}}", 10), "https://h/api");
    assert_eq!(resolver.resolve_recursive("{{url}}", 0), "{{url}}");
}

#[test]
fn recursion_stops_on_a_cycle_at_the_depth() {
    let resolver = VariableResolver::new().with_environment(pairs(&[("a", "{{b}}"), ("b", "{{a}}")]));
    assert_eq!(resolver.resolve_recursive("{{a}}", 3), "{{b}}");
    assert_eq!(resolver.resolve_recursive("{{a}}", 4), "{{a}}");
}

#[test]
fn substitute_joins_pieces_with_replacements() {
    let resolver = VariableResolver::new().with_globals(pairs(&[("n", "7")]));
    let pieces = vec!["<".to_string(), "|".to_string(), ">".to_string()];
    let names = vec!["n".to_string(), "m".to_string()];
    assert_eq!(resolver.substitute(&pieces, &names), "<7|{{m}}>");
}

#[test]
fn disabled_variables_are_invisible_to_get_and_to_map() {
    let env = Environment::new("E".to_string()).with_values(vec![
        Variable::disabled("k".to_string(), "hidden".to_string()),
        Variable::new("k".to_string(), "shown".to_string()),
        Variable::new("j".to_string(), "1".to_string()),
    ]);
    assert_eq!(env.get("k"), Some("shown".to_string()));
    assert_eq!(env.to_map(), pairs(&[("k", "shown"), ("j", "1")]));
}

#[test]
fn set_updates_the_first_variable_of_that_name_even_if_disabled() {
    let mut globals = Globals::new().with_values(vec![
        Variable::disabled("k".to_string(), "a".to_string()),
        Variable::new("k".to_string(), "b".to_string()),
    ]);
    globals.set("k".to_string(), "c".to_string());
    assert_eq!(globals.values[0].value, "c");
    assert_eq!(globals.values[1].value, "b");
    assert_eq!(globals.to_map(), pairs(&[("k", "b")]));
    assert!(globals.unset("k"));
    assert!(globals.values.is_empty());
}

#[test]
fn variable_builders_and_display() {
    let v = Variable::new("k".to_string(), "v".to_string())
        .with_type(VariableType::System)
        .with_description("d".to_string());
    assert_eq!(v.variable_type, VariableType::System);
    assert_eq!(v.description, Some("d".to_string()));
    assert_eq!(v.display_value(), "v");
    let empty_secret = Variable::secret("k".to_string(), String::new());
    assert_eq!(empty_secret.display_value(), "");
    assert_eq!(empty_secret.initial_value, Some(String::new()));
    assert_eq!(VariableType::default(), VariableType::Normal);
    assert!(!Variable::disabled("a".to_string(), "b".to_string()).enabled);
}

#[test]
fn to_map_keeps_one_value_per_key_the_last_enabled() {
    let env = Environment::new("E".to_string()).with_values(vec![
        Variable::new("k".to_string(), "first".to_string()),
        Variable::new("j".to_string(), "1".to_string()),
        Variable::new("k".to_string(), "last".to_string()),
        Variable::disabled("k".to_string(), "ignored".to_string()),
    ]);
    assert_eq!(env.to_map(), pairs(&[("k", "last"), ("j", "1")]));
    let globals = Globals::new().with_values(vec![
        Variable::new("a".to_string(), "1".to_string()),
        Variable::new("a".to_string(), "2".to_string()),
    ]);
    assert_eq!(globals.to_map(), pairs(&[("a", "2")]));
}
