//! The viewer-root strategy: refetch a fragment whose type condition is
//! the well-known `Viewer` type through the `viewer` field on the query
//! root.
//!
//! Applicability is decided by the type condition's name alone. Once a
//! fragment is recognized, the schema must have a `Viewer` object type,
//! a `viewer` field on the query root whose type (after stripping list
//! and non-null wrappers) is that very type, and the field must declare
//! no arguments; any other shape is a structured error naming the
//! fragment.

use vstd::prelude::*;
use vstd::pervasive::unreached;
use std::sync::Arc;
use crate::ir::{
    FragmentDefinition, OperationDefinition, OperationKind, Selection, ValidationError,
    ValidationMessage, ValidationResult, WithLocation,
};
use crate::root_variables::VariableMap;
use crate::schema::{
    lemma_field_unique, lemma_type_name_unique, FieldID, Schema, Type, TypeKind,
};
use crate::refetchable_fragment::{
    build_fragment_spread, build_operation_variable_definitions, clone_fragment_ref, constants,
    hoisted_extras, viewer_field_name, viewer_type_name, RefetchRoot,
};
use crate::ir::LinkedField;

verus! {

/// The applicability test: the fragment's type condition is named like
/// the viewer type. Nothing else about the schema is consulted.
pub open spec fn viewer_applicable(schema: Schema, fragment: FragmentDefinition) -> bool {
    schema.spec_type_name(fragment.type_condition) == viewer_type_name()
}

/// Whether `id` is a viewer field usable for refetching `fragment`: the
/// field named `viewer` on the query root, of the fragment's own type
/// condition once wrappers are stripped, declaring no arguments.
pub open spec fn viewer_field_good(
    schema: Schema,
    fragment: FragmentDefinition,
    id: FieldID,
) -> bool {
    match schema.query_type {
        Some(q) => {
            &&& schema.field_matches(id, q, viewer_field_name())
            &&& schema.fields@[id.0 as int].field.type_.spec_inner() == fragment.type_condition
            &&& schema.fields@[id.0 as int].field.arguments@.len() == 0
        },
        None => false,
    }
}

/// Whether the schema supports a viewer refetch for this fragment: the
/// type condition is the registered `Viewer` type, that type is an
/// object, and a usable viewer field exists on the query root.
pub open spec fn viewer_can_refetch(schema: Schema, fragment: FragmentDefinition) -> bool {
    &&& schema.type_has_name(fragment.type_condition, viewer_type_name())
    &&& fragment.type_condition.kind == TypeKind::Object
    &&& exists|id: FieldID| viewer_field_good(schema, fragment, id)
}

/// The shape of the error raised when a recognized fragment meets a
/// schema without the viewer refetch shape: a single diagnostic naming
/// the fragment, at the fragment's declaration location.
pub open spec fn is_invalid_viewer_schema_error(
    errs: Seq<ValidationError>,
    fragment: FragmentDefinition,
) -> bool {
    &&& errs.len() == 1
    &&& errs[0].message == (ValidationMessage::InvalidViewerSchemaForRefetchableFragmentOnViewer {
        fragment_name: fragment.name.item,
    })
    &&& errs[0].locations@ == seq![fragment.name.location]
}

/// The shape of a successful viewer refetch root: no identifier field, a
/// one-hop path through the viewer field, a query operation named by the
/// caller at the fragment's location, variable definitions hoisted from
/// the fragment and the usage map, and a single viewer field selection
/// holding exactly the fragment spread.
pub open spec fn is_viewer_refetch_root(
    schema: Schema,
    fragment: FragmentDefinition,
    query_name: String,
    variables_map: VariableMap,
    root: RefetchRoot,
) -> bool {
    &&& root.identifier_field is None
    &&& root.path@.len() == 1
    &&& root.path@[0]@ == viewer_field_name()
    &&& root.fragment == fragment
    &&& root.operation.kind == OperationKind::Query
    &&& root.operation.name.location == fragment.name.location
    &&& root.operation.name.item == query_name
    &&& Some(root.operation.type_) == schema.query_type
    &&& root.operation.variable_definitions@ == fragment.variable_definitions@ + hoisted_extras(
        variables_map.entries@,
        fragment.variable_definitions@,
    )
    &&& root.operation.directives@.len() == 0
    &&& root.operation.selections@.len() == 1
    &&& root.operation.selections@[0] matches Selection::LinkedField(field) && ({
        &&& field.alias is None
        &&& field.definition.location == fragment.name.location
        &&& viewer_field_good(schema, fragment, field.definition.item)
        &&& field.arguments@.len() == 0
        &&& field.directives@.len() == 0
        &&& field.selections@.len() == 1
        &&& field.selections@[0] matches Selection::FragmentSpread(spread) && ({
            &&& spread.fragment == fragment.name
            &&& spread.arguments@.len() == 0
            &&& spread.directives@.len() == 0
        })
    })
}

/// Everything the viewer strategy promises, for every input: it declines
/// exactly the fragments whose type condition is not named `Viewer`,
/// errs exactly when it recognizes the fragment but the schema lacks the
/// viewer refetch shape, and otherwise returns a fully pinned root.
pub open spec fn viewer_build_post(
    schema: Schema,
    fragment: FragmentDefinition,
    query_name: String,
    variables_map: VariableMap,
    r: ValidationResult<Option<RefetchRoot>>,
) -> bool {
    match r {
        Ok(root_opt) => match root_opt {
            None => !viewer_applicable(schema, fragment),
            Some(root) => {
                &&& viewer_applicable(schema, fragment)
                &&& viewer_can_refetch(schema, fragment)
                &&& is_viewer_refetch_root(schema, fragment, query_name, variables_map, root)
            },
        },
        Err(errs) => {
            &&& viewer_applicable(schema, fragment)
            &&& !viewer_can_refetch(schema, fragment)
            &&& is_invalid_viewer_schema_error(errs@, fragment)
        },
    }
}

/// Applicability short-circuit: a fragment whose type condition is not
/// named like the viewer type is declined by the viewer strategy — the
/// result is `Ok(None)`, never a root and never an error, whatever the
/// rest of the schema looks like.
pub proof fn lemma_viewer_short_circuit(
    schema: Schema,
    fragment: FragmentDefinition,
    query_name: String,
    variables_map: VariableMap,
    r: ValidationResult<Option<RefetchRoot>>,
)
    requires
        viewer_build_post(schema, fragment, query_name, variables_map, r),
        schema.spec_type_name(fragment.type_condition) != viewer_type_name(),
    ensures
        r matches Ok(root) && root is None,
{
}

/// Finds the viewer field usable for refetching `fragment`, or reports
/// the schema's shape as invalid for a viewer refetch.
fn get_viewer_field_id(schema: &Schema, query_type: Type, fragment: &FragmentDefinition) -> (r:
    ValidationResult<FieldID>)
    requires
        schema.wf(),
        schema.query_type == Some(query_type),
    ensures
        match r {
            Ok(id) => viewer_can_refetch(*schema, *fragment) && viewer_field_good(
                *schema,
                *fragment,
                id,
            ),
            Err(errs) => !viewer_can_refetch(*schema, *fragment) && is_invalid_viewer_schema_error(
                errs@,
                *fragment,
            ),
        },
{
    let c = constants();
    let viewer_type = schema.get_type(&c.viewer_type_name);
    let viewer_field_id = schema.named_field(query_type, &c.viewer_field_name);
    match (viewer_type, viewer_field_id) {
        (Some(vt), Some(field_id)) => {
            let viewer_field = schema.field(field_id);
            let inner = viewer_field.type_.inner();
            if vt.is_object() && vt == inner && vt == fragment.type_condition
                && viewer_field.arguments.len() == 0 {
                proof {
                    assert(schema.type_has_name(fragment.type_condition, viewer_type_name()));
                    assert(viewer_field_good(*schema, *fragment, field_id));
                }
                return Ok(field_id);
            }
            proof {
                assert(!viewer_can_refetch(*schema, *fragment)) by {
                    if viewer_can_refetch(*schema, *fragment) {
                        lemma_type_name_unique(
                            *schema,
                            vt,
                            fragment.type_condition,
                            viewer_type_name(),
                        );
                        let good = choose|id: FieldID|
                            viewer_field_good(*schema, *fragment, id);
                        lemma_field_unique(
                            *schema,
                            query_type,
                            viewer_field_name(),
                            good,
                            field_id,
                        );
                    }
                }
            }
        },
        (None, _) => {
            proof {
                assert(!viewer_can_refetch(*schema, *fragment));
            }
        },
        (Some(_), None) => {
            proof {
                assert(!viewer_can_refetch(*schema, *fragment)) by {
                    if viewer_can_refetch(*schema, *fragment) {
                        let good = choose|id: FieldID|
                            viewer_field_good(*schema, *fragment, id);
                        assert(schema.field_matches(good, query_type, viewer_field_name()));
                    }
                }
            }
        },
    }
    let locations = vec![fragment.name.location];
    proof {
        assert(locations@ =~= seq![fragment.name.location]);
    }
    Err(
        vec![
            ValidationError::new(
                ValidationMessage::InvalidViewerSchemaForRefetchableFragmentOnViewer {
                    fragment_name: fragment.name.item.clone(),
                },
                locations,
            ),
        ],
    )
}

/// The viewer strategy: declines any fragment whose type condition is
/// not named `Viewer`; otherwise validates the schema's viewer shape and
/// builds the synthetic refetch operation around a spread of the
/// original fragment.
pub fn build_refetch_operation(
    schema: &Schema,
    fragment: &Arc<FragmentDefinition>,
    query_name: String,
    variables_map: &VariableMap,
) -> (r: ValidationResult<Option<RefetchRoot>>)
    requires
        schema.wf(),
        schema.valid_type(fragment.type_condition),
        viewer_applicable(*schema, **fragment) ==> schema.query_type is Some,
    ensures
        viewer_build_post(*schema, **fragment, query_name, *variables_map, r),
{
    let frag: &FragmentDefinition = &**fragment;
    let c = constants();
    let condition_name = schema.get_type_name(frag.type_condition);
    if !(condition_name == c.viewer_type_name) {
        return Ok(None);
    }
    let query_type = match schema.query_type() {
        Some(t) => t,
        None => unreached(),
    };
    let viewer_field_id = match get_viewer_field_id(schema, query_type, frag) {
        Ok(id) => id,
        Err(errs) => {
            return Err(errs);
        },
    };
    let variable_definitions = build_operation_variable_definitions(
        variables_map,
        &frag.variable_definitions,
    );
    let spread = build_fragment_spread(frag);
    let field = LinkedField {
        alias: None,
        definition: WithLocation::new(frag.name.location, viewer_field_id),
        arguments: Vec::new(),
        directives: Vec::new(),
        selections: vec![spread],
    };
    let operation = OperationDefinition {
        kind: OperationKind::Query,
        name: WithLocation::new(frag.name.location, query_name),
        type_: query_type,
        variable_definitions,
        directives: Vec::new(),
        selections: vec![Selection::LinkedField(Arc::new(field))],
    };
    let root = RefetchRoot {
        identifier_field: None,
        path: vec![c.viewer_field_name],
        operation: Arc::new(operation),
        fragment: clone_fragment_ref(fragment),
    };
    Ok(Some(root))
}

} // verus!
