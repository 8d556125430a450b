use octopat::scope::{Scope, ScopeError};

#[test]
fn scope_deserializes_into_identifier() {
    assert_eq!(
        serde_json::to_string(&Scope::AdminGpgKey.wire()).unwrap(),
        "\"admin:gpg_key\""
    );
}

#[test]
fn scope_round_trip_over_catalog() {
    for scope in Scope::all() {
        assert_eq!(Scope::parse(&scope.wire()), Ok(scope));
    }
}

#[test]
fn scope_wire_names_are_distinct() {
    let all = Scope::all();
    for (i, a) in all.iter().enumerate() {
        for (j, b) in all.iter().enumerate() {
            if i != j {
                assert_ne!(a.wire(), b.wire());
            }
        }
    }
}

#[test]
fn unknown_wire_name_is_rejected() {
    assert_eq!(Scope::parse("admin:everything"), Err(ScopeError::UnknownScope));
    assert_eq!(Scope::parse(""), Err(ScopeError::UnknownScope));
    assert_eq!(Scope::parse("Repo"), Err(ScopeError::UnknownScope));
}

#[test]
fn catalog_has_the_expected_entries() {
    let all = Scope::all();
    assert_eq!(all.len(), 32);
    assert_eq!(all[0], Scope::Repo);
    assert_eq!(Scope::AdminOrg.wire(), "admin:org");
    assert_eq!(Scope::AdminRepoHook.wire(), "admin:repo_hook");
    assert_eq!(Scope::Workflow.wire(), "workflow");
}

#[test]
fn default_marks_select_exactly_repo() {
    let marks = Scope::default_marks();
    let all = Scope::all();
    assert_eq!(marks.len(), all.len());
    for (mark, scope) in marks.iter().zip(all.iter()) {
        assert_eq!(*mark, *scope == Scope::Repo);
    }
}

#[test]
fn indices_map_to_scopes_in_selection_order() {
    let picked = Scope::scopes_from_indices(&vec![6, 9, 0]);
    assert_eq!(
        picked,
        vec![Scope::AdminRepoHook, Scope::AdminOrg, Scope::Repo]
    );
}
