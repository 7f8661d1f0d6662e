use workers_ai::registry::{catalog, resolve_model, LookupError};

#[test]
fn catalog_has_all_entries_in_order() {
    let c = catalog();
    assert_eq!(c.len(), 34);
    assert_eq!(c[0].name, "@cf/meta/llama-3-8b-instruct");
    assert_eq!(
        c[0].aliases,
        vec!["llama-3-8b".to_string(), "llama-3-8b-instruct".to_string()]
    );
    assert_eq!(c[33].name, "@hf/thebloke/zephyr-7b-beta-awq");
}

#[test]
fn resolve_by_canonical_name() {
    let m = resolve_model(Some("@cf/microsoft/phi-2")).unwrap();
    assert_eq!(m.name, "@cf/microsoft/phi-2");
    assert_eq!(m.aliases, vec!["phi-2".to_string()]);
}

#[test]
fn resolve_by_alias_any_case() {
    let m = resolve_model(Some("Mistral-7B")).unwrap();
    assert_eq!(m.name, "@cf/mistral/mistral-7b-instruct-v0.1");
    let m = resolve_model(Some("@CF/GOOGLE/GEMMA-7B-IT")).unwrap();
    assert_eq!(m.name, "@cf/google/gemma-7b-it");
}

#[test]
fn catalog_names_are_unique() {
    let c = catalog();
    for i in 0..c.len() {
        for j in i + 1..c.len() {
            assert_ne!(c[i].name, c[j].name);
        }
    }
}

#[test]
fn resolve_every_entry_by_name_and_alias() {
    let c = catalog();
    for e in c.iter() {
        let by_name = resolve_model(Some(&e.name.to_uppercase())).unwrap();
        assert_eq!(by_name.name, e.name);
        assert_eq!(by_name.aliases, e.aliases);
        for a in e.aliases.iter() {
            let by_alias = resolve_model(Some(&a.to_uppercase())).unwrap();
            assert_eq!(by_alias.name, e.name);
            assert_eq!(by_alias.aliases, e.aliases);
        }
    }
}

#[test]
fn resolve_second_alias_of_first_entry() {
    let m = resolve_model(Some("llama-3-8b-instruct")).unwrap();
    assert_eq!(m.name, "@cf/meta/llama-3-8b-instruct");
    let m = resolve_model(Some("llama-2-13b-chat-awq")).unwrap();
    assert_eq!(m.name, "@hf/thebloke/llama-2-13b-chat-awq");
}

#[test]
fn resolve_absent_or_empty_gives_default() {
    assert_eq!(resolve_model(None).unwrap().name, "@cf/meta/llama-3-8b-instruct");
    assert_eq!(resolve_model(Some("")).unwrap().name, "@cf/meta/llama-3-8b-instruct");
}

#[test]
fn resolve_unknown_fails() {
    assert!(matches!(resolve_model(Some("gpt-4")), Err(LookupError::ModelNotFound)));
    assert!(matches!(resolve_model(Some("phi")), Err(LookupError::ModelNotFound)));
}
