//! Turning a fragment into a standalone refetch query.
//!
//! A registry of query generators is tried in a fixed order. Each
//! generator either declines the fragment (its type condition is not one
//! the generator recognizes), produces a fully built refetch root, or
//! reports that the schema cannot support a refetch for a fragment it
//! does recognize. If every generator declines, the dispatcher reports
//! the fragment as not refetchable.

use vstd::prelude::*;
use std::sync::Arc;
use crate::ir::{
    FragmentDefinition, FragmentSpread, OperationDefinition, Selection, ValidationError,
    ValidationMessage, ValidationResult, VariableDefinition,
};
use crate::root_variables::{Variable, VariableMap};
use crate::schema::Schema;
use crate::viewer_query_generator;
use crate::viewer_query_generator::{
    is_invalid_viewer_schema_error, is_viewer_refetch_root, viewer_applicable, viewer_can_refetch,
};

verus! {

/// The name of the well-known viewer type.
pub open spec fn viewer_type_name() -> Seq<char> {
    "Viewer"@
}

/// The name of the well-known viewer field on the query root.
pub open spec fn viewer_field_name() -> Seq<char> {
    "viewer"@
}

/// The well-known names the strategies look for.
pub struct Constants {
    pub viewer_type_name: String,
    pub viewer_field_name: String,
}

/// Builds the well-known names.
pub fn constants() -> (c: Constants)
    ensures
        c.viewer_type_name@ == viewer_type_name(),
        c.viewer_field_name@ == viewer_field_name(),
{
    Constants { viewer_type_name: "Viewer".to_owned(), viewer_field_name: "viewer".to_owned() }
}

/// The output of a successful strategy: the synthetic operation, the
/// path of field names from its root down to the fragment spread, the
/// identifier field used by id-based strategies (none for viewer-style
/// ones), and a shared handle to the original fragment.
#[derive(Debug)]
pub struct RefetchRoot {
    pub identifier_field: Option<String>,
    pub path: Vec<String>,
    pub operation: Arc<OperationDefinition>,
    pub fragment: Arc<FragmentDefinition>,
}

/// Relies on std::sync::Arc::clone: the returned handle refers to the
/// same fragment value as the argument.
#[verifier::external_body]
pub(crate) fn clone_fragment_ref(fragment: &Arc<FragmentDefinition>) -> (r: Arc<
    FragmentDefinition,
>)
    ensures
        r == *fragment,
{
    Arc::clone(fragment)
}

/// Whether some definition in `defs` declares the variable `name`.
pub open spec fn declares(defs: Seq<VariableDefinition>, name: Seq<char>) -> bool {
    exists|k: int| 0 <= k < defs.len() && defs[k].name.item@ == name
}

/// The definition synthesized for a usage-map variable that the fragment
/// does not declare itself: the inferred type, and no default value.
pub open spec fn synthesized_definition(v: Variable) -> VariableDefinition {
    VariableDefinition { name: v.name, type_: v.type_, default_value: None }
}

/// The definitions hoisted from the usage map: one synthesized
/// definition per entry whose name no definition in `defs` declares, in
/// entry order.
pub open spec fn hoisted_extras(entries: Seq<Variable>, defs: Seq<VariableDefinition>) -> Seq<
    VariableDefinition,
>
    decreases entries.len(),
{
    if entries.len() == 0 {
        Seq::empty()
    } else {
        let rest = hoisted_extras(entries.drop_last(), defs);
        if declares(defs, entries.last().name.item@) {
            rest
        } else {
            rest.push(synthesized_definition(entries.last()))
        }
    }
}

/// Whether some definition in `defs` declares `name`.
fn declares_variable(defs: &Vec<VariableDefinition>, name: &String) -> (r: bool)
    ensures
        r == declares(defs@, name@),
{
    let mut i: usize = 0;
    while i < defs.len()
        invariant
            i <= defs@.len(),
            forall|k: int| 0 <= k < i ==> defs@[k].name.item@ != name@,
        decreases defs@.len() - i,
    {
        if defs[i].name.item == *name {
            proof {
                assert(defs@[i as int].name.item@ == name@);
            }
            return true;
        }
        i = i + 1;
    }
    false
}

/// Hoists the variables a refetch operation must declare: the fragment's
/// own declared definitions first, in their original order and with
/// their default values kept, then one synthesized definition for every
/// usage-map variable not covered by them, in map order.
pub fn build_operation_variable_definitions(
    variables_map: &VariableMap,
    local_variables: &Vec<VariableDefinition>,
) -> (r: Vec<VariableDefinition>)
    ensures
        r@ == local_variables@ + hoisted_extras(variables_map.entries@, local_variables@),
{
    let mut result: Vec<VariableDefinition> = local_variables.clone();
    proof {
        assert(result@ =~= local_variables@);
        assert(variables_map.entries@.take(0) =~= Seq::<Variable>::empty());
        assert(result@ =~= local_variables@ + hoisted_extras(
            variables_map.entries@.take(0),
            local_variables@,
        ));
    }
    let n = variables_map.entries.len();
    let mut i: usize = 0;
    while i < n
        invariant
            i <= n,
            n == variables_map.entries@.len(),
            result@ == local_variables@ + hoisted_extras(
                variables_map.entries@.take(i as int),
                local_variables@,
            ),
        decreases n - i,
    {
        let var = &variables_map.entries[i];
        let already = declares_variable(local_variables, &var.name.item);
        if !already {
            result.push(
                VariableDefinition {
                    name: var.name.clone(),
                    type_: var.type_.clone(),
                    default_value: None,
                },
            );
        }
        proof {
            let entries = variables_map.entries@;
            assert(entries.take(i + 1).drop_last() =~= entries.take(i as int));
            assert(entries.take(i + 1).last() == entries[i as int]);
            if !already {
                assert(result@ =~= local_variables@ + hoisted_extras(
                    entries.take(i + 1),
                    local_variables@,
                ));
            }
        }
        i = i + 1;
    }
    proof {
        assert(variables_map.entries@.take(n as int) =~= variables_map.entries@);
    }
    result
}

/// The names of the hoisted extras are exactly the usage-map names that
/// no definition in `defs` declares.
proof fn lemma_hoisted_extras_membership(entries: Seq<Variable>, defs: Seq<VariableDefinition>)
    ensures
        forall|n: Seq<char>|
            #![trigger declares(hoisted_extras(entries, defs), n)]
            declares(hoisted_extras(entries, defs), n) <==> ((exists|i: int|
                0 <= i < entries.len() && entries[i].name.item@ == n) && !declares(defs, n)),
    decreases entries.len(),
{
    let extras = hoisted_extras(entries, defs);
    if entries.len() == 0 {
        assert(extras.len() == 0);
    } else {
        let rest_entries = entries.drop_last();
        let rest = hoisted_extras(rest_entries, defs);
        let last = entries.last();
        lemma_hoisted_extras_membership(rest_entries, defs);
        assert forall|n: Seq<char>|
            declares(extras, n) <==> ((exists|i: int|
                0 <= i < entries.len() && entries[i].name.item@ == n) && !declares(
                defs,
                n,
            )) by {
            if declares(extras, n) {
                let k = choose|k: int| 0 <= k < extras.len() && extras[k].name.item@ == n;
                if k < rest.len() {
                    assert(extras[k] == rest[k]);
                    assert(declares(hoisted_extras(rest_entries, defs), n));
                    assert(exists|i: int|
                        0 <= i < rest_entries.len() && rest_entries[i].name.item@ == n);
                    let i = choose|i: int|
                        0 <= i < rest_entries.len() && rest_entries[i].name.item@ == n;
                    assert(entries[i] == rest_entries[i]);
                    assert(entries[i].name.item@ == n);
                } else {
                    assert(!declares(defs, last.name.item@));
                    assert(extras[k] == synthesized_definition(last));
                    assert(entries[entries.len() - 1].name.item@ == n);
                }
            }
            if (exists|i: int| 0 <= i < entries.len() && entries[i].name.item@ == n) && !declares(
                defs,
                n,
            ) {
                let i = choose|i: int| 0 <= i < entries.len() && entries[i].name.item@ == n;
                if i < entries.len() - 1 {
                    assert(rest_entries[i] == entries[i]);
                    assert(rest_entries[i].name.item@ == n);
                    assert(declares(hoisted_extras(rest_entries, defs), n));
                    let k = choose|k: int| 0 <= k < rest.len() && rest[k].name.item@ == n;
                    assert(extras[k] == rest[k]);
                    assert(declares(extras, n));
                } else {
                    assert(last.name.item@ == n);
                    assert(extras[extras.len() - 1] == synthesized_definition(last));
                    assert(declares(extras, n));
                }
            }
        }
    }
}

/// Hoisting a usage map with unique names yields extras with unique
/// names.
proof fn lemma_hoisted_extras_unique(entries: Seq<Variable>, defs: Seq<VariableDefinition>)
    requires
        forall|i: int, j: int|
            0 <= i < j < entries.len() ==> entries[i].name.item@ != entries[j].name.item@,
    ensures
        forall|i: int, j: int|
            0 <= i < j < hoisted_extras(entries, defs).len() ==> hoisted_extras(
                entries,
                defs,
            )[i].name.item@ != hoisted_extras(entries, defs)[j].name.item@,
    decreases entries.len(),
{
    let extras = hoisted_extras(entries, defs);
    if entries.len() == 0 {
    } else {
        let rest_entries = entries.drop_last();
        let rest = hoisted_extras(rest_entries, defs);
        let last = entries.last();
        assert forall|i: int, j: int|
            0 <= i < j < rest_entries.len() implies rest_entries[i].name.item@
            != rest_entries[j].name.item@ by {
            assert(rest_entries[i] == entries[i]);
            assert(rest_entries[j] == entries[j]);
        }
        lemma_hoisted_extras_unique(rest_entries, defs);
        lemma_hoisted_extras_membership(rest_entries, defs);
        assert forall|i: int, j: int|
            0 <= i < j < extras.len() implies extras[i].name.item@ != extras[j].name.item@ by {
            if j < rest.len() {
                assert(extras[i] == rest[i]);
                assert(extras[j] == rest[j]);
            } else {
                assert(!declares(defs, last.name.item@));
                assert(extras[j] == synthesized_definition(last));
                assert(extras[i] == rest[i]);
                let n = rest[i].name.item@;
                assert(declares(hoisted_extras(rest_entries, defs), n));
                assert(exists|idx: int|
                    0 <= idx < rest_entries.len() && rest_entries[idx].name.item@ == n);
                let idx = choose|idx: int|
                    0 <= idx < rest_entries.len() && rest_entries[idx].name.item@ == n;
                assert(entries[idx] == rest_entries[idx]);
                assert(entries[idx].name.item@ != entries[entries.len() - 1].name.item@);
            }
        }
    }
}

/// Variable completeness: the synthetic operation declares exactly the
/// union of the fragment's own declared variable names and the usage
/// map's names, and declares no name twice.
pub proof fn lemma_variable_completeness(
    schema: Schema,
    fragment: FragmentDefinition,
    query_name: String,
    variables_map: VariableMap,
    root: RefetchRoot,
)
    requires
        fragment.wf(),
        variables_map.wf(),
        is_viewer_refetch_root(schema, fragment, query_name, variables_map, root),
    ensures
        forall|n: Seq<char>|
            declares(root.operation.variable_definitions@, n) <==> (declares(
                fragment.variable_definitions@,
                n,
            ) || variables_map.contains_name(n)),
        forall|i: int, j: int|
            0 <= i < j < root.operation.variable_definitions@.len()
                ==> root.operation.variable_definitions@[i].name.item@
                != root.operation.variable_definitions@[j].name.item@,
{
    let defs = fragment.variable_definitions@;
    let entries = variables_map.entries@;
    let extras = hoisted_extras(entries, defs);
    let all = root.operation.variable_definitions@;
    lemma_hoisted_extras_membership(entries, defs);
    lemma_hoisted_extras_unique(entries, defs);
    assert forall|n: Seq<char>|
        declares(all, n) <==> (declares(defs, n) || variables_map.contains_name(n)) by {
        if declares(all, n) {
            let k = choose|k: int| 0 <= k < all.len() && all[k].name.item@ == n;
            if k < defs.len() {
                assert(all[k] == defs[k]);
                assert(declares(defs, n));
            } else {
                assert(all[k] == extras[k - defs.len()]);
                assert(declares(extras, n));
            }
        }
        if declares(defs, n) {
            let k = choose|k: int| 0 <= k < defs.len() && defs[k].name.item@ == n;
            assert(all[k] == defs[k]);
            assert(declares(all, n));
        }
        if variables_map.contains_name(n) && !declares(defs, n) {
            assert(declares(extras, n));
            let k = choose|k: int| 0 <= k < extras.len() && extras[k].name.item@ == n;
            assert(all[defs.len() + k] == extras[k]);
            assert(declares(all, n));
        }
    }
    assert forall|i: int, j: int|
        0 <= i < j < all.len() implies all[i].name.item@ != all[j].name.item@ by {
        if j < defs.len() {
            assert(all[i] == defs[i]);
            assert(all[j] == defs[j]);
        } else if i >= defs.len() {
            assert(all[i] == extras[i - defs.len()]);
            assert(all[j] == extras[j - defs.len()]);
        } else {
            assert(all[i] == defs[i]);
            assert(all[j] == extras[j - defs.len()]);
            assert(declares(extras, extras[j - defs.len()].name.item@));
            if all[i].name.item@ == all[j].name.item@ {
                assert(declares(defs, all[j].name.item@));
            }
        }
    }
}

/// Wraps a fragment reference as a spreadable selection: the fragment's
/// name at its original location, with no arguments and no directives.
pub fn build_fragment_spread(fragment: &FragmentDefinition) -> (s: Selection)
    ensures
        s matches Selection::FragmentSpread(spread) && spread.fragment == fragment.name
            && spread.arguments@.len() == 0 && spread.directives@.len() == 0,
{
    Selection::FragmentSpread(
        Arc::new(
            FragmentSpread {
                fragment: fragment.name.clone(),
                arguments: Vec::new(),
                directives: Vec::new(),
            },
        ),
    )
}

/// One registered root-finding strategy, paired with a human-readable
/// description of the fragments it serves.
#[derive(Clone, Copy, PartialEq, Eq, Structural, Debug)]
pub enum QueryGenerator {
    Viewer,
}

/// The viewer-root strategy.
pub const VIEWER_QUERY_GENERATOR: QueryGenerator = QueryGenerator::Viewer;

impl QueryGenerator {
    /// The strategy's human-readable description.
    pub open spec fn spec_description(self) -> Seq<char> {
        match self {
            QueryGenerator::Viewer => "the Viewer type"@,
        }
    }

    /// The strategy's human-readable description.
    pub fn description(&self) -> (d: String)
        ensures
            d@ == self.spec_description(),
    {
        match self {
            QueryGenerator::Viewer => "the Viewer type".to_owned(),
        }
    }

    /// Whether the strategy recognizes the fragment's type condition.
    pub open spec fn applicable(self, schema: Schema, fragment: FragmentDefinition) -> bool {
        match self {
            QueryGenerator::Viewer => viewer_applicable(schema, fragment),
        }
    }

    /// What the strategy returns: `Ok(None)` when it does not recognize
    /// the fragment, a fully built root on success, and a structured
    /// error when it recognizes the fragment but the schema is shaped
    /// wrongly.
    pub open spec fn build_post(
        self,
        schema: Schema,
        fragment: FragmentDefinition,
        query_name: String,
        variables_map: VariableMap,
        r: ValidationResult<Option<RefetchRoot>>,
    ) -> bool {
        match self {
            QueryGenerator::Viewer => viewer_query_generator::viewer_build_post(
                schema,
                fragment,
                query_name,
                variables_map,
                r,
            ),
        }
    }

    /// Attempts the strategy on one fragment.
    pub fn build_refetch_operation(
        &self,
        schema: &Schema,
        fragment: &Arc<FragmentDefinition>,
        query_name: String,
        variables_map: &VariableMap,
    ) -> (r: ValidationResult<Option<RefetchRoot>>)
        requires
            schema.wf(),
            schema.valid_type(fragment.type_condition),
            self.applicable(*schema, **fragment) ==> schema.query_type is Some,
        ensures
            self.build_post(*schema, **fragment, query_name, *variables_map, r),
    {
        match self {
            QueryGenerator::Viewer => viewer_query_generator::build_refetch_operation(
                schema,
                fragment,
                query_name,
                variables_map,
            ),
        }
    }
}

/// The registry: every known strategy, in the fixed order the dispatcher
/// tries them.
pub fn generators() -> (g: Vec<QueryGenerator>)
    ensures
        g@ =~= seq![QueryGenerator::Viewer],
{
    vec![VIEWER_QUERY_GENERATOR]
}

/// The shape of the aggregate error the dispatcher reports when no
/// strategy recognizes a fragment: a single diagnostic at the fragment's
/// location, carrying the fragment's name, its type condition's name,
/// and the descriptions of the strategies that were tried.
pub open spec fn is_unsupported_fragment_error(
    errs: Seq<ValidationError>,
    schema: Schema,
    fragment: FragmentDefinition,
) -> bool {
    &&& errs.len() == 1
    &&& errs[0].locations@ == seq![fragment.name.location]
    &&& errs[0].message matches ValidationMessage::UnsupportedRefetchableFragment {
        fragment_name,
        type_condition_name,
        supported,
    } && fragment_name == fragment.name.item && type_condition_name@ == schema.spec_type_name(
        fragment.type_condition,
    ) && supported@.len() == 1 && supported@[0]@ == QueryGenerator::Viewer.spec_description()
}

/// Everything the dispatcher promises: the viewer strategy's outcome
/// when it recognizes the fragment, and the aggregate "not refetchable"
/// error when no strategy does.
pub open spec fn refetch_post(
    schema: Schema,
    fragment: FragmentDefinition,
    query_name: String,
    variables_map: VariableMap,
    r: ValidationResult<RefetchRoot>,
) -> bool {
    if viewer_applicable(schema, fragment) {
        if viewer_can_refetch(schema, fragment) {
            r matches Ok(root) && is_viewer_refetch_root(
                schema,
                fragment,
                query_name,
                variables_map,
                root,
            )
        } else {
            r matches Err(errs) && is_invalid_viewer_schema_error(errs@, fragment)
        }
    } else {
        r matches Err(errs) && is_unsupported_fragment_error(errs@, schema, fragment)
    }
}

/// Tries every registered generator in order on one fragment. The first
/// generator to produce a root wins; an error from a generator that
/// recognized the fragment is propagated at once; if every generator
/// declines, a single aggregate error reports the fragment as not
/// refetchable.
pub fn build_refetch_operation(
    schema: &Schema,
    fragment: &Arc<FragmentDefinition>,
    query_name: String,
    variables_map: &VariableMap,
) -> (r: ValidationResult<RefetchRoot>)
    requires
        schema.wf(),
        schema.valid_type(fragment.type_condition),
        viewer_applicable(*schema, **fragment) ==> schema.query_type is Some,
    ensures
        refetch_post(*schema, **fragment, query_name, *variables_map, r),
{
    let gens = generators();
    let mut supported: Vec<String> = Vec::new();
    let n = gens.len();
    let mut i: usize = 0;
    while i < n
        invariant
            i <= n,
            n == gens@.len(),
            gens@ =~= seq![QueryGenerator::Viewer],
            schema.wf(),
            schema.valid_type(fragment.type_condition),
            viewer_applicable(*schema, **fragment) ==> schema.query_type is Some,
            supported@.len() == i,
            forall|k: int| 0 <= k < i ==> supported@[k]@ == gens@[k].spec_description(),
            forall|k: int| 0 <= k < i ==> !gens@[k].applicable(*schema, **fragment),
        decreases n - i,
    {
        let generator = gens[i];
        let name = query_name.clone();
        match generator.build_refetch_operation(schema, fragment, name, variables_map) {
            Ok(Some(root)) => {
                return Ok(root);
            },
            Ok(None) => {
                supported.push(generator.description());
            },
            Err(errs) => {
                return Err(errs);
            },
        }
        i = i + 1;
    }
    let type_condition_name = schema.get_type_name(fragment.type_condition);
    let locations = vec![fragment.name.location];
    proof {
        assert(!gens@[0].applicable(*schema, **fragment));
        assert(locations@ =~= seq![fragment.name.location]);
    }
    Err(
        vec![
            ValidationError::new(
                ValidationMessage::UnsupportedRefetchableFragment {
                    fragment_name: fragment.name.item.clone(),
                    type_condition_name,
                    supported,
                },
                locations,
            ),
        ],
    )
}

/// Whether two selections are the same fragment spread: same name and
/// location, and both bare of arguments and directives.
pub open spec fn similar_spreads(x: Selection, y: Selection) -> bool {
    x matches Selection::FragmentSpread(sx) && y matches Selection::FragmentSpread(sy) && ({
        &&& sx.fragment == sy.fragment
        &&& sx.arguments@.len() == sy.arguments@.len()
        &&& sx.directives@.len() == sy.directives@.len()
    })
}

/// Whether two selections are the same bare linked field holding the
/// same fragment spreads.
pub open spec fn similar_root_selections(x: Selection, y: Selection) -> bool {
    x matches Selection::LinkedField(lx) && y matches Selection::LinkedField(ly) && ({
        &&& lx.alias is None && ly.alias is None
        &&& lx.definition == ly.definition
        &&& lx.arguments@.len() == ly.arguments@.len()
        &&& lx.directives@.len() == ly.directives@.len()
        &&& lx.selections@.len() == ly.selections@.len()
        &&& forall|i: int|
            0 <= i < lx.selections@.len() ==> similar_spreads(
                lx.selections@[i],
                ly.selections@[i],
            )
    })
}

/// Whether two refetch roots are structurally identical in every part a
/// generator of this library pins: identifier field, path (strings
/// compared by contents), shared fragment, and the synthetic operation
/// down to its fragment spread.
pub open spec fn similar_refetch_roots(a: RefetchRoot, b: RefetchRoot) -> bool {
    &&& a.identifier_field == b.identifier_field
    &&& a.path@.len() == b.path@.len()
    &&& forall|i: int| 0 <= i < a.path@.len() ==> a.path@[i]@ == b.path@[i]@
    &&& a.fragment == b.fragment
    &&& a.operation.kind == b.operation.kind
    &&& a.operation.name == b.operation.name
    &&& a.operation.type_ == b.operation.type_
    &&& a.operation.variable_definitions@ == b.operation.variable_definitions@
    &&& a.operation.directives@.len() == b.operation.directives@.len()
    &&& a.operation.selections@.len() == b.operation.selections@.len()
    &&& forall|i: int|
        0 <= i < a.operation.selections@.len() ==> similar_root_selections(
            a.operation.selections@[i],
            b.operation.selections@[i],
        )
}

/// Whether two diagnostics say the same thing: the same message variant
/// with the same contents (strings compared by contents), at the same
/// locations.
pub open spec fn similar_messages(a: ValidationMessage, b: ValidationMessage) -> bool {
    match (a, b) {
        (
            ValidationMessage::InvalidViewerSchemaForRefetchableFragmentOnViewer {
                fragment_name: fa,
            },
            ValidationMessage::InvalidViewerSchemaForRefetchableFragmentOnViewer {
                fragment_name: fb,
            },
        ) => fa == fb,
        (
            ValidationMessage::UnsupportedRefetchableFragment {
                fragment_name: fa,
                type_condition_name: ta,
                supported: sa,
            },
            ValidationMessage::UnsupportedRefetchableFragment {
                fragment_name: fb,
                type_condition_name: tb,
                supported: sb,
            },
        ) => {
            &&& fa == fb
            &&& ta@ == tb@
            &&& sa@.len() == sb@.len()
            &&& forall|i: int| 0 <= i < sa@.len() ==> sa@[i]@ == sb@[i]@
        },
        _ => false,
    }
}

/// Whether two error batches carry the same diagnostics.
pub open spec fn similar_errors(a: Seq<ValidationError>, b: Seq<ValidationError>) -> bool {
    &&& a.len() == b.len()
    &&& forall|i: int|
        0 <= i < a.len() ==> similar_messages(a[i].message, b[i].message) && a[i].locations@
            == b[i].locations@
}

/// Determinism: for one fixed schema, fragment, query name and usage
/// map, any two dispatcher outcomes agree — both succeed with the same
/// refetch root structure, or both fail with the same error set.
pub proof fn lemma_refetch_deterministic(
    schema: Schema,
    fragment: FragmentDefinition,
    query_name: String,
    variables_map: VariableMap,
    r1: ValidationResult<RefetchRoot>,
    r2: ValidationResult<RefetchRoot>,
)
    requires
        schema.wf(),
        refetch_post(schema, fragment, query_name, variables_map, r1),
        refetch_post(schema, fragment, query_name, variables_map, r2),
    ensures
        match (r1, r2) {
            (Ok(a), Ok(b)) => similar_refetch_roots(a, b),
            (Err(a), Err(b)) => similar_errors(a@, b@),
            _ => false,
        },
{
    if viewer_applicable(schema, fragment) && viewer_can_refetch(schema, fragment) {
        let a = r1->Ok_0;
        let b = r2->Ok_0;
        assert(a.operation.selections@[0] matches Selection::LinkedField(la)
            && b.operation.selections@[0] matches Selection::LinkedField(lb) && ({
            &&& similar_root_selections(a.operation.selections@[0], b.operation.selections@[0])
        })) by {
            let sa = a.operation.selections@[0];
            let sb = b.operation.selections@[0];
            let la = sa->LinkedField_0;
            let lb = sb->LinkedField_0;
            let q = schema.query_type->Some_0;
            crate::schema::lemma_field_unique(
                schema,
                q,
                viewer_field_name(),
                la.definition.item,
                lb.definition.item,
            );
            assert(similar_spreads(la.selections@[0], lb.selections@[0]));
        }
        assert(similar_refetch_roots(a, b));
    }
}

} // verus!
