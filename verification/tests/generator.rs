use tagged_types::generator::Expansion;
use tagged_types::generator::ListKind;
use tagged_types::generator::MarkerKind;
use tagged_types::generator::TagDeclaration;
use tagged_types::generator::capability_marker;
use tagged_types::generator::conflict_message;
use tagged_types::generator::implement_marker;
use tagged_types::generator::transparent_marker;

fn names(list: &[&str]) -> Option<Vec<String>> {
    Some(list.iter().map(|s| s.to_string()).collect())
}

fn declaration() -> TagDeclaration {
    TagDeclaration { permissive: false, implement: None, transparent: None, capability: None }
}

fn grants_of(d: &TagDeclaration) -> (Vec<MarkerKind>, Vec<(ListKind, String)>) {
    match d.expand() {
        Expansion::Grants { grants, unknown } => {
            (grants, unknown.into_iter().map(|u| (u.list, u.name)).collect())
        }
        Expansion::PermissiveConflict => panic!("declaration was rejected as conflicting"),
    }
}

#[test]
fn test_capability_list_grants() {
    let mut d = declaration();
    d.capability = names(&["inner_access", "from_inner", "value_map", "cloned", "as_ref"]);
    let (grants, unknown) = grants_of(&d);
    assert_eq!(
        grants,
        vec![
            MarkerKind::InnerAccess,
            MarkerKind::ConstructFromInner,
            MarkerKind::ValueMap,
            MarkerKind::ReferenceClone,
            MarkerKind::AsReference,
        ]
    );
    assert!(unknown.is_empty());
}

#[test]
fn test_implement_list_grants() {
    let mut d = declaration();
    d.implement = names(&[
        "Default", "Clone", "Copy", "PartialEq", "Eq", "PartialOrd", "Ord", "Hash", "Deref",
        "Add", "Sub", "Mul", "Div",
    ]);
    let (grants, unknown) = grants_of(&d);
    assert_eq!(
        grants,
        vec![
            MarkerKind::DefaultConstruct,
            MarkerKind::CloneValue,
            MarkerKind::CopyValue,
            MarkerKind::PartialEquality,
            MarkerKind::Equality,
            MarkerKind::PartialOrdering,
            MarkerKind::TotalOrdering,
            MarkerKind::Hashing,
            MarkerKind::DerefToInner,
            MarkerKind::Addition,
            MarkerKind::Subtraction,
            MarkerKind::Multiplication,
            MarkerKind::Division,
        ]
    );
    assert!(unknown.is_empty());
}

#[test]
fn test_transparent_list_grants() {
    let mut d = declaration();
    d.transparent = names(&["Display", "Debug", "FromStr", "Serialize", "Deserialize"]);
    let (grants, unknown) = grants_of(&d);
    assert_eq!(
        grants,
        vec![
            MarkerKind::DisplayFormat,
            MarkerKind::DebugFormat,
            MarkerKind::ParseFromText,
            MarkerKind::Serialization,
            MarkerKind::Deserialization,
        ]
    );
    assert!(unknown.is_empty());
}

#[test]
fn test_lists_are_processed_together() {
    let mut d = declaration();
    d.capability = names(&["inner_access"]);
    d.implement = names(&["Clone"]);
    d.transparent = names(&["Display"]);
    let (grants, unknown) = grants_of(&d);
    assert_eq!(
        grants,
        vec![MarkerKind::InnerAccess, MarkerKind::CloneValue, MarkerKind::DisplayFormat]
    );
    assert!(unknown.is_empty());
}

#[test]
fn test_unknown_capability_reported() {
    let mut d = declaration();
    d.capability = names(&["inner_access", "superpowers", "value_map"]);
    let (grants, unknown) = grants_of(&d);
    assert_eq!(grants, vec![MarkerKind::InnerAccess]);
    assert_eq!(unknown, vec![(ListKind::Capability, "superpowers".to_string())]);
}

#[test]
fn test_unknown_implement_reported() {
    let mut d = declaration();
    d.implement = names(&["Clone", "Zeroize"]);
    let (grants, unknown) = grants_of(&d);
    assert_eq!(grants, vec![MarkerKind::CloneValue]);
    assert_eq!(unknown, vec![(ListKind::Implement, "Zeroize".to_string())]);
}

#[test]
fn test_unknown_transparent_reported() {
    let mut d = declaration();
    d.transparent = names(&["Render"]);
    let (grants, unknown) = grants_of(&d);
    assert!(grants.is_empty());
    assert_eq!(unknown, vec![(ListKind::Transparent, "Render".to_string())]);
}

#[test]
fn test_unknown_name_halts_only_its_list() {
    let mut d = declaration();
    d.capability = names(&["no_such_capability", "inner_access"]);
    d.implement = names(&["Clone", "Copy"]);
    let (grants, unknown) = grants_of(&d);
    assert_eq!(grants, vec![MarkerKind::CloneValue, MarkerKind::CopyValue]);
    assert_eq!(unknown, vec![(ListKind::Capability, "no_such_capability".to_string())]);
}

#[test]
fn test_unknown_name_messages() {
    let mut d = declaration();
    d.capability = names(&["levitate"]);
    d.implement = names(&["Fly"]);
    d.transparent = names(&["Vanish"]);
    match d.expand() {
        Expansion::Grants { grants, unknown } => {
            assert!(grants.is_empty());
            let messages: Vec<String> = unknown.iter().map(|u| u.message()).collect();
            assert_eq!(
                messages,
                vec![
                    "Don't know capability: levitate".to_string(),
                    "Don't know how to implement: Fly".to_string(),
                    "Don't know how to make Vanish transparent".to_string(),
                ]
            );
        }
        Expansion::PermissiveConflict => panic!("declaration was rejected as conflicting"),
    }
}

#[test]
fn test_permissive_alone_grants_the_aggregate() {
    let mut d = declaration();
    d.permissive = true;
    let (grants, unknown) = grants_of(&d);
    assert_eq!(grants, vec![MarkerKind::GrantAll]);
    assert!(unknown.is_empty());
    assert_eq!(MarkerKind::GrantAll.trait_name(), "Permissive");
}

#[test]
fn test_permissive_beside_a_list_is_rejected() {
    let mut d = declaration();
    d.permissive = true;
    d.implement = names(&["Clone"]);
    assert!(matches!(d.expand(), Expansion::PermissiveConflict));
    assert_eq!(conflict_message(), "permissive must be the only attribute in derive");
}

#[test]
fn test_permissive_beside_an_empty_list_is_rejected() {
    let mut d = declaration();
    d.permissive = true;
    d.capability = Some(Vec::new());
    assert!(matches!(d.expand(), Expansion::PermissiveConflict));
}

#[test]
fn test_duplicate_names_grant_twice_harmlessly() {
    let mut d = declaration();
    d.implement = names(&["Clone", "Clone"]);
    let (grants, unknown) = grants_of(&d);
    assert_eq!(grants, vec![MarkerKind::CloneValue, MarkerKind::CloneValue]);
    assert!(unknown.is_empty());
}

#[test]
fn test_lookup_functions_match_catalogue() {
    assert_eq!(capability_marker("inner_access"), Some(MarkerKind::InnerAccess));
    assert_eq!(capability_marker("Default"), None);
    assert_eq!(implement_marker("Default"), Some(MarkerKind::DefaultConstruct));
    assert_eq!(implement_marker("inner_access"), None);
    assert_eq!(transparent_marker("FromStr"), Some(MarkerKind::ParseFromText));
    assert_eq!(transparent_marker("Clone"), None);
}

#[test]
fn test_trait_names_of_grants() {
    assert_eq!(MarkerKind::InnerAccess.trait_name(), "InnerAccess");
    assert_eq!(MarkerKind::ConstructFromInner.trait_name(), "FromInner");
    assert_eq!(MarkerKind::ReferenceClone.trait_name(), "Cloned");
    assert_eq!(MarkerKind::DefaultConstruct.trait_name(), "ImplementDefault");
    assert_eq!(MarkerKind::TotalOrdering.trait_name(), "ImplementOrd");
    assert_eq!(MarkerKind::DisplayFormat.trait_name(), "TransparentDisplay");
    assert_eq!(MarkerKind::Deserialization.trait_name(), "TransparentDeserialize");
}
