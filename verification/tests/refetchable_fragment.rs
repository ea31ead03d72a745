use graphql_transforms::ir::{
    ConstantValue, FragmentDefinition, Location, OperationKind, Selection, ValidationMessage,
    WithLocation,
};
use graphql_transforms::refetchable_fragment::{
    build_fragment_spread, build_operation_variable_definitions, build_refetch_operation,
    generators, QueryGenerator, VIEWER_QUERY_GENERATOR,
};
use graphql_transforms::root_variables::{Variable, VariableMap};
use graphql_transforms::schema::{
    Field, FieldArgument, Schema, Type, TypeKind, TypeReference,
};
use graphql_transforms::viewer_query_generator;
use std::sync::Arc;

fn fragment_location() -> Location {
    Location { start: 3, end: 20 }
}

/// A schema with object types `Query`, `Viewer` and `User`, a scalar
/// `ID`, and `Query` as the root query type.
fn base_schema() -> (Schema, Type, Type, Type) {
    let mut schema = Schema::new();
    let query = schema.add_type("Query".to_string(), TypeKind::Object).unwrap();
    let viewer = schema.add_type("Viewer".to_string(), TypeKind::Object).unwrap();
    let user = schema.add_type("User".to_string(), TypeKind::Object).unwrap();
    schema.add_type("ID".to_string(), TypeKind::Scalar).unwrap();
    assert!(schema.set_query_type(query));
    (schema, query, viewer, user)
}

fn add_viewer_field(schema: &mut Schema, query: Type, type_: TypeReference, arguments: Vec<FieldArgument>) {
    let field = Field { name: "viewer".to_string(), type_, arguments };
    schema.add_field(query, field).unwrap();
}

fn fragment_on(t: Type, name: &str) -> Arc<FragmentDefinition> {
    Arc::new(FragmentDefinition {
        name: WithLocation::new(fragment_location(), name.to_string()),
        type_condition: t,
        variable_definitions: Vec::new(),
        directives: Vec::new(),
        selections: Vec::new(),
    })
}

fn variable(name: &str, type_: TypeReference) -> Variable {
    Variable { name: WithLocation::new(Location { start: 40, end: 44 }, name.to_string()), type_ }
}

#[test]
fn viewer_strategy_accepts_viewer_fragment() {
    let (mut schema, query, viewer, _user) = base_schema();
    add_viewer_field(&mut schema, query, TypeReference::Named(viewer), Vec::new());
    let fragment = fragment_on(viewer, "ViewerData");
    let map = VariableMap::new();
    let r = viewer_query_generator::build_refetch_operation(
        &schema,
        &fragment,
        "RefetchableViewerData".to_string(),
        &map,
    );
    let root = r.unwrap().unwrap();
    assert_eq!(root.path, vec!["viewer".to_string()]);
    assert!(root.identifier_field.is_none());
    assert!(matches!(root.operation.kind, OperationKind::Query));
    assert_eq!(root.operation.name.item, "RefetchableViewerData".to_string());
    assert_eq!(root.operation.name.location, fragment_location());
    assert_eq!(root.operation.type_, query);
    assert_eq!(root.operation.variable_definitions.len(), 0);
    assert_eq!(root.operation.directives.len(), 0);
    assert_eq!(root.operation.selections.len(), 1);
    match &root.operation.selections[0] {
        Selection::LinkedField(linked) => {
            assert!(linked.alias.is_none());
            assert_eq!(linked.arguments.len(), 0);
            assert_eq!(linked.directives.len(), 0);
            assert_eq!(schema.field(linked.definition.item).name, "viewer".to_string());
            assert_eq!(linked.selections.len(), 1);
            match &linked.selections[0] {
                Selection::FragmentSpread(spread) => {
                    assert_eq!(spread.fragment.item, "ViewerData".to_string());
                    assert_eq!(spread.fragment.location, fragment_location());
                    assert_eq!(spread.arguments.len(), 0);
                    assert_eq!(spread.directives.len(), 0);
                }
                _ => panic!("expected a fragment spread under the viewer field"),
            }
        }
        _ => panic!("expected a linked field selection"),
    }
    assert!(Arc::ptr_eq(&root.fragment, &fragment));
}

#[test]
fn viewer_strategy_accepts_wrapped_field_type() {
    let (mut schema, query, viewer, _user) = base_schema();
    add_viewer_field(
        &mut schema,
        query,
        TypeReference::NonNull(Box::new(TypeReference::Named(viewer))),
        Vec::new(),
    );
    let fragment = fragment_on(viewer, "ViewerData");
    let map = VariableMap::new();
    let r = viewer_query_generator::build_refetch_operation(
        &schema,
        &fragment,
        "RefetchQuery".to_string(),
        &map,
    );
    assert!(r.unwrap().is_some());
}

#[test]
fn viewer_strategy_rejects_wrong_field_arity() {
    let (mut schema, query, viewer, _user) = base_schema();
    let id_type = schema.get_type(&"ID".to_string()).unwrap();
    let arguments = vec![FieldArgument {
        name: "id".to_string(),
        type_: TypeReference::NonNull(Box::new(TypeReference::Named(id_type))),
    }];
    add_viewer_field(&mut schema, query, TypeReference::Named(viewer), arguments);
    let fragment = fragment_on(viewer, "ViewerData");
    let map = VariableMap::new();
    let r = viewer_query_generator::build_refetch_operation(
        &schema,
        &fragment,
        "RefetchQuery".to_string(),
        &map,
    );
    let errs = r.unwrap_err();
    assert_eq!(errs.len(), 1);
    match &errs[0].message {
        ValidationMessage::InvalidViewerSchemaForRefetchableFragmentOnViewer { fragment_name } => {
            assert_eq!(fragment_name.as_str(), "ViewerData");
        }
        _ => panic!("expected the invalid-viewer-schema message"),
    }
    assert_eq!(errs[0].locations, vec![fragment_location()]);
}

#[test]
fn viewer_strategy_rejects_missing_viewer_field() {
    let (schema, _query, viewer, _user) = base_schema();
    let fragment = fragment_on(viewer, "ViewerData");
    let map = VariableMap::new();
    let r = viewer_query_generator::build_refetch_operation(
        &schema,
        &fragment,
        "RefetchQuery".to_string(),
        &map,
    );
    assert!(r.is_err());
}

#[test]
fn viewer_strategy_rejects_wrong_field_inner_type() {
    let (mut schema, query, viewer, user) = base_schema();
    add_viewer_field(&mut schema, query, TypeReference::Named(user), Vec::new());
    let fragment = fragment_on(viewer, "ViewerData");
    let map = VariableMap::new();
    let r = viewer_query_generator::build_refetch_operation(
        &schema,
        &fragment,
        "RefetchQuery".to_string(),
        &map,
    );
    assert!(r.is_err());
}

#[test]
fn viewer_strategy_rejects_non_object_viewer_type() {
    let mut schema = Schema::new();
    let query = schema.add_type("Query".to_string(), TypeKind::Object).unwrap();
    let viewer = schema.add_type("Viewer".to_string(), TypeKind::Interface).unwrap();
    assert!(schema.set_query_type(query));
    add_viewer_field(&mut schema, query, TypeReference::Named(viewer), Vec::new());
    let fragment = fragment_on(viewer, "ViewerData");
    let map = VariableMap::new();
    let r = viewer_query_generator::build_refetch_operation(
        &schema,
        &fragment,
        "RefetchQuery".to_string(),
        &map,
    );
    assert!(r.is_err());
}

#[test]
fn viewer_strategy_declines_other_type_condition() {
    let (mut schema, query, viewer, user) = base_schema();
    add_viewer_field(&mut schema, query, TypeReference::Named(viewer), Vec::new());
    let fragment = fragment_on(user, "UserData");
    let map = VariableMap::new();
    let r = viewer_query_generator::build_refetch_operation(
        &schema,
        &fragment,
        "RefetchQuery".to_string(),
        &map,
    );
    assert!(matches!(r, Ok(None)));
}

#[test]
fn dispatcher_returns_viewer_root() {
    let (mut schema, query, viewer, _user) = base_schema();
    add_viewer_field(&mut schema, query, TypeReference::Named(viewer), Vec::new());
    let fragment = fragment_on(viewer, "ViewerData");
    let map = VariableMap::new();
    let r = build_refetch_operation(&schema, &fragment, "RefetchQuery".to_string(), &map);
    let root = r.unwrap();
    assert_eq!(root.path, vec!["viewer".to_string()]);
    assert!(root.identifier_field.is_none());
}

#[test]
fn dispatcher_propagates_strategy_error() {
    let (mut schema, query, viewer, _user) = base_schema();
    let id_type = schema.get_type(&"ID".to_string()).unwrap();
    let arguments = vec![FieldArgument {
        name: "id".to_string(),
        type_: TypeReference::Named(id_type),
    }];
    add_viewer_field(&mut schema, query, TypeReference::Named(viewer), arguments);
    let fragment = fragment_on(viewer, "ViewerData");
    let map = VariableMap::new();
    let errs = build_refetch_operation(&schema, &fragment, "RefetchQuery".to_string(), &map)
        .unwrap_err();
    assert_eq!(errs.len(), 1);
    assert!(matches!(
        errs[0].message,
        ValidationMessage::InvalidViewerSchemaForRefetchableFragmentOnViewer { .. }
    ));
}

#[test]
fn dispatcher_reports_unrefetchable_fragment() {
    let (mut schema, query, viewer, user) = base_schema();
    add_viewer_field(&mut schema, query, TypeReference::Named(viewer), Vec::new());
    let fragment = fragment_on(user, "UserData");
    let map = VariableMap::new();
    let errs = build_refetch_operation(&schema, &fragment, "RefetchQuery".to_string(), &map)
        .unwrap_err();
    assert_eq!(errs.len(), 1);
    match &errs[0].message {
        ValidationMessage::UnsupportedRefetchableFragment {
            fragment_name,
            type_condition_name,
            supported,
        } => {
            assert_eq!(fragment_name.as_str(), "UserData");
            assert_eq!(type_condition_name.as_str(), "User");
            assert_eq!(supported, &vec!["the Viewer type".to_string()]);
        }
        _ => panic!("expected the unsupported-refetchable-fragment message"),
    }
    assert_eq!(errs[0].locations, vec![fragment_location()]);
}

#[test]
fn dispatcher_is_deterministic() {
    let (mut schema, query, viewer, user) = base_schema();
    add_viewer_field(&mut schema, query, TypeReference::Named(viewer), Vec::new());
    let map = VariableMap::new();
    let fragment = fragment_on(viewer, "ViewerData");
    let r1 = build_refetch_operation(&schema, &fragment, "RefetchQuery".to_string(), &map)
        .unwrap();
    let r2 = build_refetch_operation(&schema, &fragment, "RefetchQuery".to_string(), &map)
        .unwrap();
    assert_eq!(r1.path, r2.path);
    assert_eq!(r1.operation.name.item, r2.operation.name.item);
    assert_eq!(r1.operation.type_, r2.operation.type_);
    assert_eq!(r1.operation.selections.len(), r2.operation.selections.len());
    let other = fragment_on(user, "UserData");
    let e1 = build_refetch_operation(&schema, &other, "RefetchQuery".to_string(), &map)
        .unwrap_err();
    let e2 = build_refetch_operation(&schema, &other, "RefetchQuery".to_string(), &map)
        .unwrap_err();
    assert_eq!(e1.len(), e2.len());
    assert_eq!(e1[0].locations, e2[0].locations);
}

#[test]
fn registry_lists_the_viewer_generator() {
    let gens = generators();
    assert_eq!(gens, vec![QueryGenerator::Viewer]);
    assert_eq!(VIEWER_QUERY_GENERATOR.description(), "the Viewer type".to_string());
}

#[test]
fn hoists_map_only_variables() {
    let (_schema, _query, viewer, _user) = base_schema();
    let mut map = VariableMap::new();
    assert!(map.add(variable("first", TypeReference::Named(viewer))));
    assert!(map.add(variable("second", TypeReference::Named(viewer))));
    let local: Vec<graphql_transforms::ir::VariableDefinition> = Vec::new();
    let defs = build_operation_variable_definitions(&map, &local);
    assert_eq!(defs.len(), 2);
    assert_eq!(defs[0].name.item, "first".to_string());
    assert_eq!(defs[1].name.item, "second".to_string());
    assert!(defs[0].default_value.is_none());
    assert!(defs[1].default_value.is_none());
}

#[test]
fn hoisting_prefers_declared_definitions() {
    let (_schema, _query, viewer, user) = base_schema();
    let declared = graphql_transforms::ir::VariableDefinition {
        name: WithLocation::new(Location { start: 7, end: 12 }, "count".to_string()),
        type_: TypeReference::Named(user),
        default_value: Some(ConstantValue::Int(10)),
    };
    let local = vec![declared];
    let mut map = VariableMap::new();
    assert!(map.add(variable("count", TypeReference::Named(viewer))));
    assert!(map.add(variable("after", TypeReference::Named(viewer))));
    let defs = build_operation_variable_definitions(&map, &local);
    assert_eq!(defs.len(), 2);
    assert_eq!(defs[0].name.item, "count".to_string());
    assert_eq!(defs[0].name.location, Location { start: 7, end: 12 });
    assert!(matches!(defs[0].default_value, Some(ConstantValue::Int(10))));
    assert!(matches!(&defs[0].type_, TypeReference::Named(t) if *t == user));
    assert_eq!(defs[1].name.item, "after".to_string());
    assert!(defs[1].default_value.is_none());
}

#[test]
fn hoisting_keeps_unused_declared_definitions() {
    let (_schema, _query, viewer, _user) = base_schema();
    let declared = graphql_transforms::ir::VariableDefinition {
        name: WithLocation::new(Location { start: 7, end: 12 }, "unused".to_string()),
        type_: TypeReference::Named(viewer),
        default_value: None,
    };
    let local = vec![declared];
    let map = VariableMap::new();
    let defs = build_operation_variable_definitions(&map, &local);
    assert_eq!(defs.len(), 1);
    assert_eq!(defs[0].name.item, "unused".to_string());
}

#[test]
fn operation_hoists_fragment_and_map_variables() {
    let (mut schema, query, viewer, _user) = base_schema();
    add_viewer_field(&mut schema, query, TypeReference::Named(viewer), Vec::new());
    let declared = graphql_transforms::ir::VariableDefinition {
        name: WithLocation::new(Location { start: 7, end: 12 }, "count".to_string()),
        type_: TypeReference::Named(viewer),
        default_value: Some(ConstantValue::Boolean(true)),
    };
    let fragment = Arc::new(FragmentDefinition {
        name: WithLocation::new(fragment_location(), "ViewerData".to_string()),
        type_condition: viewer,
        variable_definitions: vec![declared],
        directives: Vec::new(),
        selections: Vec::new(),
    });
    let mut map = VariableMap::new();
    assert!(map.add(variable("after", TypeReference::Named(viewer))));
    let root = build_refetch_operation(&schema, &fragment, "RefetchQuery".to_string(), &map)
        .unwrap();
    let names: Vec<String> = root
        .operation
        .variable_definitions
        .iter()
        .map(|d| d.name.item.clone())
        .collect();
    assert_eq!(names, vec!["count".to_string(), "after".to_string()]);
}

#[test]
fn fragment_spread_carries_name_and_location() {
    let (_schema, _query, viewer, _user) = base_schema();
    let fragment = fragment_on(viewer, "ViewerData");
    let spread = build_fragment_spread(&fragment);
    match spread {
        Selection::FragmentSpread(s) => {
            assert_eq!(s.fragment.item, "ViewerData".to_string());
            assert_eq!(s.fragment.location, fragment_location());
            assert_eq!(s.arguments.len(), 0);
            assert_eq!(s.directives.len(), 0);
        }
        _ => panic!("expected a fragment spread"),
    }
}
