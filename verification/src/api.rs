//! The resource builder: walks the document's path table, extracts the
//! operations, and groups them into resources ordered by name, with
//! operations in document encounter order.

use vstd::prelude::*;

use crate::diag::{Diagnostic, Severity, extends, push_diag};
use crate::document::{ComponentEntry, ComponentEntryV, MethodOp, PathEntry, PathEntryV, RefOr, RefOrV};
use crate::operation::{FatalError, Operation, OperationV, spec_extract_operation, valid_op_id};
use crate::schema::{Schema, SchemaV};
use crate::strutil::{
    lemma_lex_lt_connected, lemma_lex_lt_irrefl, lemma_lex_lt_trans, lex_lt, str_eq, str_lt,
};
use crate::types::{Type, TypeErrorV, TypeV, Types, spec_type_from_schema, ts_view};

verus! {

/// A named group of operations, in document encounter order.
#[derive(Debug)]
pub struct Resource {
    pub name: String,
    pub operations: Vec<Operation>,
}

/// Mirror of [`Resource`].
pub struct ResourceV {
    pub name: Seq<char>,
    pub operations: Seq<OperationV>,
}

impl View for Resource {
    type V = ResourceV;

    open spec fn view(&self) -> ResourceV {
        ResourceV {
            name: self.name@,
            operations: self.operations@.map_values(|o: Operation| o@),
        }
    }
}

impl Resource {
    /// Creates an empty resource with the given name.
    pub fn new(name: String) -> (r: Resource)
        ensures
            r@.name == name@,
            r@.operations == Seq::<OperationV>::empty(),
    {
        let r = Resource { name, operations: Vec::new() };
        assert(r@.operations =~= Seq::<OperationV>::empty());
        r
    }
}

/// The views of a sequence of resources.
pub open spec fn rs_view(rs: Seq<Resource>) -> Seq<ResourceV> {
    rs.map_values(|r: Resource| r@)
}

/// The names of a sequence of resources, in order.
pub open spec fn resource_names(rs: Seq<ResourceV>) -> Seq<Seq<char>> {
    rs.map_values(|r: ResourceV| r.name)
}

/// Strictly ascending by the lexicographic order: sorted, no duplicates.
pub open spec fn sorted_unique(names: Seq<Seq<char>>) -> bool {
    forall|i: int, j: int| 0 <= i < j < names.len() ==> lex_lt(names[i], names[j])
}

/// The predicate selecting the events that claim `name`.
pub open spec fn claims(name: Seq<char>) -> spec_fn((Seq<char>, OperationV)) -> bool {
    |e: (Seq<char>, OperationV)| e.0 == name
}

/// The projection from an event to its operation.
pub open spec fn event_op() -> spec_fn((Seq<char>, OperationV)) -> OperationV {
    |e: (Seq<char>, OperationV)| e.1
}

/// The operations of the events that claim `name`, in event order.
pub open spec fn events_for(evs: Seq<(Seq<char>, OperationV)>, name: Seq<char>) -> Seq<
    OperationV,
> {
    evs.filter(claims(name)).map_values(event_op())
}

/// Whether some event claims `name`.
pub open spec fn has_event(evs: Seq<(Seq<char>, OperationV)>, name: Seq<char>) -> bool {
    exists|k: int| 0 <= k < evs.len() && evs[k].0 == name
}

/// Whether some resource carries `name`.
pub open spec fn has_resource(rs: Seq<ResourceV>, name: Seq<char>) -> bool {
    exists|i: int| 0 <= i < rs.len() && rs[i].name == name
}

/// The resources are exactly the grouping of the extraction events:
/// sorted unique names, one resource per claimed name, and each
/// resource's operations are the claiming events' operations in order.
pub open spec fn spec_groups(rs: Seq<ResourceV>, evs: Seq<(Seq<char>, OperationV)>) -> bool {
    &&& sorted_unique(resource_names(rs))
    &&& forall|i: int| 0 <= i < rs.len() ==> (#[trigger] rs[i]).operations == events_for(
        evs,
        rs[i].name,
    )
    &&& forall|i: int| 0 <= i < rs.len() ==> has_event(evs, (#[trigger] rs[i]).name)
    &&& forall|k: int| 0 <= k < evs.len() ==> has_resource(rs, (#[trigger] evs[k]).0)
}

/// Appending one event extends the grouped operations of the claimed
/// name by that operation and leaves every other name's group unchanged.
proof fn lemma_events_for_push(
    evs: Seq<(Seq<char>, OperationV)>,
    ev: (Seq<char>, OperationV),
    name: Seq<char>,
)
    ensures
        ev.0 == name ==> events_for(evs.push(ev), name) == events_for(evs, name).push(ev.1),
        ev.0 != name ==> events_for(evs.push(ev), name) == events_for(evs, name),
{
    let pred = claims(name);
    evs.lemma_filter_push(ev, pred);
    if ev.0 == name {
        assert(evs.push(ev).filter(pred).map_values(event_op()) =~= evs.filter(pred).map_values(
            event_op(),
        ).push(ev.1));
    }
}

/// A name claimed by no event groups no operations.
proof fn lemma_events_for_absent(evs: Seq<(Seq<char>, OperationV)>, name: Seq<char>)
    requires
        !has_event(evs, name),
    ensures
        events_for(evs, name) == Seq::<OperationV>::empty(),
    decreases evs.len(),
{
    let pred = claims(name);
    if evs.len() == 0 {
        reveal(Seq::filter);
        assert(evs.filter(pred).map_values(event_op()) =~= Seq::<OperationV>::empty());
    } else {
        let prefix = evs.drop_last();
        assert(!has_event(prefix, name)) by {
            if has_event(prefix, name) {
                let k = choose|k: int| 0 <= k < prefix.len() && prefix[k].0 == name;
                assert(evs[k].0 == name);
            }
        }
        lemma_events_for_absent(prefix, name);
        assert(evs[evs.len() - 1].0 != name);
        assert(evs =~= prefix.push(evs.last()));
        lemma_events_for_push(prefix, evs.last(), name);
    }
}

/// Inserts one extracted operation: appended to its resource, with the
/// resource created at its sorted position on first use.
#[verifier::loop_isolation(false)]
fn add_operation(
    resources: &mut Vec<Resource>,
    name: String,
    op: Operation,
    Ghost(evs): Ghost<Seq<(Seq<char>, OperationV)>>,
)
    requires
        spec_groups(rs_view(old(resources)@), evs),
    ensures
        spec_groups(rs_view(final(resources)@), evs.push((name@, op@))),
{
    let ghost oldv = rs_view(old(resources)@);
    let ghost names = resource_names(oldv);
    let ghost namev = name@;
    let ghost opv = op@;
    let ghost ev = (namev, opv);
    let ghost evs2 = evs.push(ev);

    let mut pos: usize = 0;
    while pos < resources.len() && str_lt(resources[pos].name.as_str(), name.as_str())
        invariant
            pos <= resources@.len(),
            resources@ == old(resources)@,
            forall|m: int| 0 <= m < pos ==> lex_lt(names[m], namev),
        decreases resources@.len() - pos,
    {
        assert(names[pos as int] == resources@[pos as int]@.name);
        pos += 1;
    }
    assert(pos < resources@.len() ==> !lex_lt(names[pos as int], namev));

    if pos < resources.len() && str_eq(resources[pos].name.as_str(), name.as_str()) {
        // The resource exists: append the operation in encounter order.
        assert(names[pos as int] == namev);
        let mut res = resources.remove(pos);
        let ghost resv = res@;
        assert(resv == oldv[pos as int]);
        res.operations.push(op);
        assert(res@.operations =~= resv.operations.push(opv));
        resources.insert(pos, res);
        proof {
            old(resources)@.remove_ensures(pos as int);
            old(resources)@.remove(pos as int).insert_ensures(pos as int, res);
            let newv = rs_view(resources@);
            assert(newv.len() == oldv.len());
            assert forall|t: int| 0 <= t < newv.len() && t != pos implies newv[t] == oldv[t] by {
                if t < pos {
                    assert(resources@[t] == old(resources)@[t]);
                } else {
                    assert(resources@[t] == old(resources)@.remove(pos as int)[t - 1]);
                    assert(old(resources)@.remove(pos as int)[t - 1] == old(resources)@[t]);
                }
            }
            assert(newv[pos as int] == ResourceV {
                name: namev,
                operations: oldv[pos as int].operations.push(opv),
            });
            // Names are unchanged, so the order is unchanged.
            assert(resource_names(newv) =~= names);
            // Grouping for each resource.
            assert forall|i: int| 0 <= i < newv.len() implies (#[trigger] newv[i]).operations
                == events_for(evs2, newv[i].name) by {
                lemma_events_for_push(evs, ev, newv[i].name);
                if i != pos {
                    assert(newv[i].name != namev) by {
                        if newv[i].name == namev {
                            lemma_lex_lt_irrefl(namev);
                            if i < pos {
                                assert(lex_lt(names[i], names[pos as int]));
                            } else {
                                assert(lex_lt(names[pos as int], names[i]));
                            }
                        }
                    }
                }
            }
            assert forall|i: int| 0 <= i < newv.len() implies has_event(
                evs2,
                (#[trigger] newv[i]).name,
            ) by {
                if i == pos {
                    assert(evs2[evs.len() as int].0 == namev);
                } else {
                    let k = choose|k: int| 0 <= k < evs.len() && evs[k].0 == oldv[i].name;
                    assert(evs2[k].0 == newv[i].name);
                }
            }
            assert forall|k: int| 0 <= k < evs2.len() implies has_resource(
                newv,
                (#[trigger] evs2[k]).0,
            ) by {
                if k < evs.len() {
                    let i = choose|i: int| 0 <= i < oldv.len() && oldv[i].name == evs[k].0;
                    assert(newv[i].name == evs2[k].0);
                } else {
                    assert(newv[pos as int].name == namev);
                }
            }
        }
    } else {
        // First use of this name: create the resource at its position.
        proof {
            if pos < resources@.len() {
                lemma_lex_lt_connected(namev, names[pos as int]);
                assert(names[pos as int] == resources@[pos as int]@.name);
                assert(lex_lt(namev, names[pos as int]));
            }
            assert forall|m: int| pos <= m < names.len() implies lex_lt(
                namev,
                #[trigger] names[m],
            ) by {
                if m > pos {
                    lemma_lex_lt_trans(namev, names[pos as int], names[m]);
                }
            }
            assert forall|m: int| 0 <= m < names.len() implies names[m] != namev by {
                lemma_lex_lt_irrefl(namev);
            }
        }
        let mut res = Resource::new(name);
        res.operations.push(op);
        assert(res@.operations =~= seq![opv]);
        let ghost resv = res@;
        resources.insert(pos, res);
        proof {
            old(resources)@.insert_ensures(pos as int, res);
            let newv = rs_view(resources@);
            assert(newv.len() == oldv.len() + 1);
            assert forall|t: int| 0 <= t < pos implies newv[t] == oldv[t] by {
                assert(resources@[t] == old(resources)@[t]);
            }
            assert(newv[pos as int] == resv);
            assert forall|t: int| pos < t < newv.len() implies newv[t] == oldv[t - 1] by {
                assert(resources@[t] == old(resources)@[t - 1]);
            }
            // Sorted, still without duplicates.
            let newnames = resource_names(newv);
            assert forall|i: int, j: int| 0 <= i < j < newnames.len() implies lex_lt(
                newnames[i],
                newnames[j],
            ) by {
                if j < pos {
                    assert(lex_lt(names[i], names[j]));
                } else if i < pos && j == pos {
                    assert(lex_lt(names[i], namev));
                } else if i < pos && j > pos {
                    assert(lex_lt(names[i], names[j - 1]));
                } else if i == pos {
                    assert(lex_lt(namev, names[j - 1]));
                } else {
                    assert(lex_lt(names[i - 1], names[j - 1]));
                }
            }
            // No event claimed this name before.
            assert(!has_event(evs, namev)) by {
                if has_event(evs, namev) {
                    let k = choose|k: int| 0 <= k < evs.len() && evs[k].0 == namev;
                    assert(has_resource(oldv, namev));
                    let i = choose|i: int| 0 <= i < oldv.len() && oldv[i].name == namev;
                    assert(names[i] == namev);
                }
            }
            lemma_events_for_absent(evs, namev);
            lemma_events_for_push(evs, ev, namev);
            assert(events_for(evs2, namev) =~= seq![opv]);
            assert forall|i: int| 0 <= i < newv.len() implies (#[trigger] newv[i]).operations
                == events_for(evs2, newv[i].name) by {
                lemma_events_for_push(evs, ev, newv[i].name);
                if i < pos {
                    assert(newv[i] == oldv[i]);
                    assert(newv[i].name != namev);
                } else if i > pos {
                    assert(newv[i] == oldv[i - 1]);
                    assert(newv[i].name != namev);
                }
            }
            assert forall|i: int| 0 <= i < newv.len() implies has_event(
                evs2,
                (#[trigger] newv[i]).name,
            ) by {
                if i == pos {
                    assert(evs2[evs.len() as int].0 == namev);
                } else {
                    let iold: int = if i < pos {
                        i
                    } else {
                        i - 1
                    };
                    let k = choose|k: int| 0 <= k < evs.len() && evs[k].0 == oldv[iold].name;
                    assert(evs2[k].0 == newv[i].name);
                }
            }
            assert forall|k: int| 0 <= k < evs2.len() implies has_resource(
                newv,
                (#[trigger] evs2[k]).0,
            ) by {
                if k < evs.len() {
                    let i = choose|i: int| 0 <= i < oldv.len() && oldv[i].name == evs[k].0;
                    let inew: int = if i < pos {
                        i
                    } else {
                        i + 1
                    };
                    assert(newv[inew].name == evs2[k].0);
                } else {
                    assert(newv[pos as int].name == namev);
                }
            }
        }
    }
}

/// The views of the path table.
pub open spec fn paths_view(paths: Seq<PathEntry>) -> Seq<PathEntryV> {
    paths.map_values(|p: PathEntry| p@)
}

/// The extraction events of one path item's operations from position `k`
/// on: each surviving operation yields one (resource name, operation)
/// event, and the first fatal condition aborts.
pub open spec fn spec_item_events(
    path: Seq<char>,
    ops: Seq<crate::document::MethodOpV>,
    k: int,
) -> Result<Seq<(Seq<char>, OperationV)>, FatalError>
    decreases ops.len() - k,
{
    if k < 0 || k >= ops.len() {
        Ok(Seq::empty())
    } else {
        match spec_extract_operation(path, ops[k].method, ops[k].operation) {
            Err(e) => Err(e),
            Ok(None) => spec_item_events(path, ops, k + 1),
            Ok(Some(ev)) => match spec_item_events(path, ops, k + 1) {
                Err(e) => Err(e),
                Ok(rest) => Ok(seq![ev] + rest),
            },
        }
    }
}

/// The extraction events of the whole path table from entry `k` on.
/// A `$ref` path item aborts; a path item with its own parameters is
/// skipped whole.
pub open spec fn spec_path_events(paths: Seq<PathEntryV>, k: int) -> Result<
    Seq<(Seq<char>, OperationV)>,
    FatalError,
>
    decreases paths.len() - k,
{
    if k < 0 || k >= paths.len() {
        Ok(Seq::empty())
    } else {
        match paths[k].item {
            RefOrV::Reference { .. } => Err(FatalError::RefPathItem),
            RefOrV::Item(pi) => {
                if pi.parameters.len() != 0 {
                    spec_path_events(paths, k + 1)
                } else {
                    match spec_item_events(paths[k].path, pi.operations, 0) {
                        Err(e) => Err(e),
                        Ok(evs) => match spec_path_events(paths, k + 1) {
                            Err(e) => Err(e),
                            Ok(rest) => Ok(evs + rest),
                        },
                    }
                }
            },
        }
    }
}

/// A result with already-collected events in front.
pub open spec fn with_prefix(
    evs: Seq<(Seq<char>, OperationV)>,
    r: Result<Seq<(Seq<char>, OperationV)>, FatalError>,
) -> Result<Seq<(Seq<char>, OperationV)>, FatalError> {
    match r {
        Ok(rest) => Ok(evs + rest),
        Err(e) => Err(e),
    }
}

/// A result with already-collected events and a pending item in front.
pub open spec fn with_item(
    evs: Seq<(Seq<char>, OperationV)>,
    item: Result<Seq<(Seq<char>, OperationV)>, FatalError>,
    rest: Result<Seq<(Seq<char>, OperationV)>, FatalError>,
) -> Result<Seq<(Seq<char>, OperationV)>, FatalError> {
    match item {
        Err(e) => Err(e),
        Ok(a) => match rest {
            Err(e) => Err(e),
            Ok(b) => Ok(evs + a + b),
        },
    }
}

/// The API we generate a client for: the intermediate representation of
/// the document's path table, resources ordered by name.
#[derive(Debug)]
pub struct Api {
    pub resources: Vec<Resource>,
}

impl View for Api {
    type V = Seq<ResourceV>;

    open spec fn view(&self) -> Seq<ResourceV> {
        rs_view(self.resources@)
    }
}

impl Api {
    /// Builds the resource map from the document's path table. The
    /// result groups exactly the surviving operations, resources sorted
    /// by name, operations in document encounter order; the first fatal
    /// condition aborts the whole compilation.
    #[verifier::loop_isolation(false)]
    pub fn new(paths: &Vec<PathEntry>, diags: &mut Vec<Diagnostic>) -> (r: Result<
        Api,
        FatalError,
    >)
        ensures
            extends(old(diags)@, final(diags)@),
            match r {
                Ok(api) => spec_path_events(paths_view(paths@), 0) is Ok && spec_groups(
                    api@,
                    spec_path_events(paths_view(paths@), 0)->Ok_0,
                ),
                Err(e) => spec_path_events(paths_view(paths@), 0) == Err::<
                    Seq<(Seq<char>, OperationV)>,
                    FatalError,
                >(e),
            },
    {
        let ghost pathsv = paths_view(paths@);
        let mut resources: Vec<Resource> = Vec::new();
        let ghost mut evs: Seq<(Seq<char>, OperationV)> = Seq::empty();
        proof {
            assert(rs_view(resources@) =~= Seq::<ResourceV>::empty());
            reveal(Seq::filter);
        }
        let mut i: usize = 0;
        while i < paths.len()
            invariant
                i <= paths@.len(),
                extends(old(diags)@, diags@),
                spec_groups(rs_view(resources@), evs),
                spec_path_events(pathsv, 0) == with_prefix(evs, spec_path_events(pathsv, i as int)),
            decreases paths@.len() - i,
        {
            assert(pathsv[i as int] == paths@[i as int]@);
            let entry = &paths[i];
            let item = match &entry.item {
                RefOr::Reference { .. } => {
                    return Err(FatalError::RefPathItem);
                },
                RefOr::Item(item) => item,
            };
            if item.parameters.len() != 0 {
                push_diag(
                    diags,
                    Severity::Info,
                    None,
                    "parameters at the path item level are not currently supported",
                );
                i += 1;
                continue;
            }
            let ghost opsv = item.operations@.map_values(|m: MethodOp| m@);
            let ghost pathv = paths@[i as int].path@;
            proof {
                let ir = spec_item_events(pathv, opsv, 0);
                let pr = spec_path_events(pathsv, i as int + 1);
                if ir is Ok && pr is Ok {
                    assert(evs + (ir->Ok_0 + pr->Ok_0) =~= evs + ir->Ok_0 + pr->Ok_0);
                }
            }
            let mut j: usize = 0;
            while j < item.operations.len()
                invariant
                    j <= item.operations@.len(),
                    extends(old(diags)@, diags@),
                    spec_groups(rs_view(resources@), evs),
                    spec_path_events(pathsv, 0) == with_item(
                        evs,
                        spec_item_events(pathv, opsv, j as int),
                        spec_path_events(pathsv, i as int + 1),
                    ),
                decreases item.operations@.len() - j,
            {
                assert(opsv[j as int] == item.operations@[j as int]@);
                let mo = &item.operations[j];
                match Operation::from_openapi(
                    entry.path.as_str(),
                    mo.method.as_str(),
                    &mo.operation,
                    diags,
                ) {
                    Err(e) => {
                        return Err(e);
                    },
                    Ok(None) => {},
                    Ok(Some((res_name, op))) => {
                        let ghost ev = (res_name@, op@);
                        proof {
                            let ir1 = spec_item_events(pathv, opsv, j as int + 1);
                            let pr = spec_path_events(pathsv, i as int + 1);
                            if ir1 is Ok && pr is Ok {
                                assert(evs + (seq![ev] + ir1->Ok_0) + pr->Ok_0 =~= evs.push(ev)
                                    + ir1->Ok_0 + pr->Ok_0);
                            }
                        }
                        add_operation(&mut resources, res_name, op, Ghost(evs));
                        proof {
                            evs = evs.push(ev);
                        }
                    },
                }
                j += 1;
            }
            proof {
                let pr = spec_path_events(pathsv, i as int + 1);
                if pr is Ok {
                    assert(evs + Seq::<(Seq<char>, OperationV)>::empty() + pr->Ok_0 =~= evs
                        + pr->Ok_0);
                }
            }
            i += 1;
        }
        proof {
            assert(evs + Seq::<(Seq<char>, OperationV)>::empty() =~= evs);
        }
        Ok(Api { resources })
    }
}

/// Whether one operation references `n` as its request or response body.
pub open spec fn op_references(op: OperationV, n: Seq<char>) -> bool {
    op.request_body_schema_name == Some(n) || op.response_body_schema_name == Some(n)
}

/// Whether some operation of the api references `n` as a body schema.
pub open spec fn spec_is_referenced(api: Seq<ResourceV>, n: Seq<char>) -> bool {
    exists|i: int, j: int|
        0 <= i < api.len() && 0 <= j < api[i].operations.len() && #[trigger] op_references(
            api[i].operations[j],
            n,
        )
}

/// Whether some operation strictly before position (i, j) references `n`.
pub open spec fn refs_upto(api: Seq<ResourceV>, i: int, j: int, n: Seq<char>) -> bool {
    exists|a: int, b: int|
        0 <= a < api.len() && 0 <= b < api[a].operations.len() && (a < i || (a == i && b < j))
            && #[trigger] op_references(api[a].operations[b], n)
}

/// Inserts `name` into a sorted duplicate-free list of names, keeping it
/// sorted; a name already present is left alone.
#[verifier::loop_isolation(false)]
fn insert_name_sorted(names: &mut Vec<String>, name: &str)
    requires
        sorted_unique(crate::strutil::str_views(old(names)@)),
    ensures
        sorted_unique(crate::strutil::str_views(final(names)@)),
        crate::strutil::str_views(final(names)@).contains(name@),
        forall|m: int| 0 <= m < final(names)@.len() ==> crate::strutil::str_views(
            old(names)@,
        ).contains(#[trigger] crate::strutil::str_views(final(names)@)[m]) || crate::strutil::str_views(
            final(names)@,
        )[m] == name@,
        forall|m: int| 0 <= m < old(names)@.len() ==> crate::strutil::str_views(
            final(names)@,
        ).contains(#[trigger] crate::strutil::str_views(old(names)@)[m]),
{
    let ghost oldv = crate::strutil::str_views(old(names)@);
    let ghost namev = name@;
    let mut pos: usize = 0;
    while pos < names.len() && str_lt(names[pos].as_str(), name)
        invariant
            pos <= names@.len(),
            names@ == old(names)@,
            forall|m: int| 0 <= m < pos ==> lex_lt(oldv[m], namev),
        decreases names@.len() - pos,
    {
        assert(oldv[pos as int] == names@[pos as int]@);
        pos += 1;
    }
    if pos < names.len() && str_eq(names[pos].as_str(), name) {
        // Already present.
        assert(crate::strutil::str_views(names@)[pos as int] == namev);
        assert forall|m: int| 0 <= m < old(names)@.len() implies crate::strutil::str_views(
            names@,
        ).contains(#[trigger] crate::strutil::str_views(old(names)@)[m]) by {
            assert(crate::strutil::str_views(names@)[m] == crate::strutil::str_views(
                old(names)@,
            )[m]);
        }
        return ;
    }
    proof {
        if pos < names@.len() {
            lemma_lex_lt_connected(namev, oldv[pos as int]);
            assert(oldv[pos as int] == names@[pos as int]@);
            assert(lex_lt(namev, oldv[pos as int]));
        }
        assert forall|m: int| pos <= m < oldv.len() implies lex_lt(
            namev,
            #[trigger] oldv[m],
        ) by {
            if m > pos {
                lemma_lex_lt_trans(namev, oldv[pos as int], oldv[m]);
            }
        }
    }
    names.insert(pos, name.to_owned());
    proof {
        old(names)@.insert_ensures(pos as int, names@[pos as int]);
        let newv = crate::strutil::str_views(names@);
        assert(newv.len() == oldv.len() + 1);
        assert forall|t: int| 0 <= t < pos implies newv[t] == oldv[t] by {
            assert(names@[t] == old(names)@[t]);
        }
        assert(newv[pos as int] == namev);
        assert forall|t: int| pos < t < newv.len() implies newv[t] == oldv[t - 1] by {
            assert(names@[t] == old(names)@[t - 1]);
        }
        assert forall|i: int, j: int| 0 <= i < j < newv.len() implies lex_lt(
            newv[i],
            newv[j],
        ) by {
            if j < pos {
                assert(lex_lt(oldv[i], oldv[j]));
            } else if i < pos && j == pos {
                assert(lex_lt(oldv[i], namev));
            } else if i < pos && j > pos {
                assert(lex_lt(oldv[i], oldv[j - 1]));
            } else if i == pos {
                assert(lex_lt(namev, oldv[j - 1]));
            } else {
                assert(lex_lt(oldv[i - 1], oldv[j - 1]));
            }
        }
        assert forall|m: int| 0 <= m < old(names)@.len() implies newv.contains(
            #[trigger] oldv[m],
        ) by {
            if m < pos {
                assert(newv[m] == oldv[m]);
            } else {
                assert(newv[m + 1] == oldv[m]);
            }
        }
        assert forall|m: int| 0 <= m < names@.len() implies oldv.contains(#[trigger] newv[m])
            || newv[m] == namev by {
            if m < pos {
                assert(newv[m] == oldv[m]);
                assert(oldv.contains(newv[m]));
            } else if m > pos {
                assert(newv[m] == oldv[m - 1]);
                assert(oldv.contains(newv[m]));
            }
        }
    }
}

impl Api {
    /// The names referenced as a request-body or response-body schema
    /// across all operations, de-duplicated and sorted by name.
    #[verifier::loop_isolation(false)]
    pub fn referenced_components(&self) -> (r: Vec<String>)
        ensures
            sorted_unique(crate::strutil::str_views(r@)),
            forall|m: int| 0 <= m < r@.len() ==> spec_is_referenced(
                self@,
                #[trigger] crate::strutil::str_views(r@)[m],
            ),
            forall|n: Seq<char>| #[trigger]
                spec_is_referenced(self@, n) ==> crate::strutil::str_views(r@).contains(n),
    {
        let ghost apiv = self@;
        let mut raw: Vec<String> = Vec::new();
        let mut i: usize = 0;
        while i < self.resources.len()
            invariant
                i <= self.resources@.len(),
                forall|m: int| 0 <= m < raw@.len() ==> refs_upto(
                    apiv,
                    i as int,
                    0,
                    #[trigger] crate::strutil::str_views(raw@)[m],
                ),
                forall|n: Seq<char>| #[trigger]
                    refs_upto(apiv, i as int, 0, n) ==> crate::strutil::str_views(raw@).contains(
                        n,
                    ),
            decreases self.resources@.len() - i,
        {
            let res = &self.resources[i];
            assert(apiv[i as int] == self.resources@[i as int]@);
            let mut j: usize = 0;
            while j < res.operations.len()
                invariant
                    j <= res.operations@.len(),
                    forall|m: int| 0 <= m < raw@.len() ==> refs_upto(
                        apiv,
                        i as int,
                        j as int,
                        #[trigger] crate::strutil::str_views(raw@)[m],
                    ),
                    forall|n: Seq<char>| #[trigger]
                        refs_upto(apiv, i as int, j as int, n) ==> crate::strutil::str_views(
                            raw@,
                        ).contains(n),
                decreases res.operations@.len() - j,
            {
                let opref = &res.operations[j];
                assert(apiv[i as int].operations[j as int] == res.operations@[j as int]@);
                let ghost opv = apiv[i as int].operations[j as int];
                let ghost rawv0 = crate::strutil::str_views(raw@);
                if let Some(n) = &opref.request_body_schema_name {
                    let ghost prev = crate::strutil::str_views(raw@);
                    raw.push(n.clone());
                    assert(crate::strutil::str_views(raw@) =~= prev.push(n@));
                }
                if let Some(n) = &opref.response_body_schema_name {
                    let ghost prev = crate::strutil::str_views(raw@);
                    raw.push(n.clone());
                    assert(crate::strutil::str_views(raw@) =~= prev.push(n@));
                }
                proof {
                    let rawv = crate::strutil::str_views(raw@);
                    assert forall|m: int| 0 <= m < rawv.len() implies refs_upto(
                        apiv,
                        i as int,
                        j as int + 1,
                        #[trigger] rawv[m],
                    ) by {
                        if m < rawv0.len() {
                            assert(rawv[m] == rawv0[m]);
                            assert(refs_upto(apiv, i as int, j as int, rawv[m]));
                            let (a, b) = choose|a: int, b: int|
                                0 <= a < apiv.len() && 0 <= b < apiv[a].operations.len() && (a
                                    < i as int || (a == i as int && b < j as int))
                                    && #[trigger] op_references(apiv[a].operations[b], rawv[m]);
                            assert(op_references(apiv[a].operations[b], rawv[m]));
                        } else {
                            assert(op_references(opv, rawv[m]));
                        }
                    }
                    assert forall|n: Seq<char>| #[trigger]
                        refs_upto(apiv, i as int, j as int + 1, n) implies crate::strutil::str_views(
                        raw@,
                    ).contains(n) by {
                        let rawv = crate::strutil::str_views(raw@);
                        let (a, b) = choose|a: int, b: int|
                            0 <= a < apiv.len() && 0 <= b < apiv[a].operations.len() && (a
                                < i as int || (a == i as int && b < j as int + 1))
                                && #[trigger] op_references(apiv[a].operations[b], n);
                        if a < i as int || (a == i as int && b < j as int) {
                            assert(refs_upto(apiv, i as int, j as int, n));
                            let m = choose|m: int| 0 <= m < rawv0.len() && rawv0[m] == n;
                            assert(rawv[m] == n);
                        } else {
                            assert(a == i as int && b == j as int);
                            assert(op_references(opv, n));
                            if opv.request_body_schema_name == Some(n) {
                                assert(rawv[rawv0.len() as int] == n);
                            } else {
                                assert(rawv[rawv.len() - 1] == n);
                            }
                        }
                    }
                }
                j += 1;
            }
            proof {
                assert forall|m: int| 0 <= m < raw@.len() implies refs_upto(
                    apiv,
                    i as int + 1,
                    0,
                    #[trigger] crate::strutil::str_views(raw@)[m],
                ) by {
                    let nv = crate::strutil::str_views(raw@)[m];
                    let (a, b) = choose|a: int, b: int|
                        0 <= a < apiv.len() && 0 <= b < apiv[a].operations.len() && (a < i as int
                            || (a == i as int && b < res.operations@.len() as int)) && #[trigger] op_references(
                            apiv[a].operations[b],
                            nv,
                        );
                    assert(op_references(apiv[a].operations[b], nv));
                }
                assert forall|n: Seq<char>| #[trigger]
                    refs_upto(apiv, i as int + 1, 0, n) implies crate::strutil::str_views(
                    raw@,
                ).contains(n) by {
                    let (a, b) = choose|a: int, b: int|
                        0 <= a < apiv.len() && 0 <= b < apiv[a].operations.len() && (a < i as int
                            + 1 || (a == i as int + 1 && b < 0)) && #[trigger] op_references(
                            apiv[a].operations[b],
                            n,
                        );
                    assert(refs_upto(apiv, i as int, apiv[i as int].operations.len() as int, n));
                }
            }
            i += 1;
        }
        // Sort and de-duplicate.
        let mut out: Vec<String> = Vec::new();
        let mut k: usize = 0;
        assert(sorted_unique(crate::strutil::str_views(out@)));
        while k < raw.len()
            invariant
                k <= raw@.len(),
                sorted_unique(crate::strutil::str_views(out@)),
                forall|m: int| 0 <= m < out@.len() ==> crate::strutil::str_views(raw@).contains(
                    #[trigger] crate::strutil::str_views(out@)[m],
                ),
                forall|m: int| 0 <= m < k ==> crate::strutil::str_views(out@).contains(
                    #[trigger] crate::strutil::str_views(raw@)[m],
                ),
            decreases raw@.len() - k,
        {
            let ghost outv0 = crate::strutil::str_views(out@);
            insert_name_sorted(&mut out, raw[k].as_str());
            proof {
                let outv = crate::strutil::str_views(out@);
                assert(crate::strutil::str_views(raw@)[k as int] == raw@[k as int]@);
                assert forall|m: int| 0 <= m < out@.len() implies crate::strutil::str_views(
                    raw@,
                ).contains(#[trigger] outv[m]) by {
                    if outv[m] == raw@[k as int]@ {
                        assert(crate::strutil::str_views(raw@)[k as int] == outv[m]);
                    } else {
                        assert(outv0.contains(outv[m]));
                        let m0 = choose|m0: int| 0 <= m0 < outv0.len() && outv0[m0] == outv[m];
                        assert(crate::strutil::str_views(raw@).contains(outv0[m0]));
                    }
                }
                assert forall|m: int| 0 <= m < k + 1 implies outv.contains(
                    #[trigger] crate::strutil::str_views(raw@)[m],
                ) by {
                    if m < k {
                        let m0 = choose|m0: int|
                            0 <= m0 < outv0.len() && outv0[m0] == crate::strutil::str_views(
                                raw@,
                            )[m];
                        assert(outv.contains(outv0[m0]));
                    } else {
                        assert(outv.contains(raw@[k as int]@));
                    }
                }
            }
            k += 1;
        }
        proof {
            assert forall|m: int| 0 <= m < out@.len() implies spec_is_referenced(
                apiv,
                #[trigger] crate::strutil::str_views(out@)[m],
            ) by {
                let n = crate::strutil::str_views(out@)[m];
                let m0 = choose|m0: int|
                    0 <= m0 < raw@.len() && crate::strutil::str_views(raw@)[m0] == n;
                assert(refs_upto(apiv, apiv.len() as int, 0, n));
                let (a, b) = choose|a: int, b: int|
                    0 <= a < apiv.len() && 0 <= b < apiv[a].operations.len() && (a
                        < apiv.len() as int || (a == apiv.len() as int && b < 0))
                        && #[trigger] op_references(apiv[a].operations[b], n);
                assert(op_references(apiv[a].operations[b], n));
            }
            assert forall|n: Seq<char>| #[trigger]
                spec_is_referenced(apiv, n) implies crate::strutil::str_views(out@).contains(
                n,
            ) by {
                let (a, b) = choose|a: int, b: int|
                    0 <= a < apiv.len() && 0 <= b < apiv[a].operations.len()
                        && #[trigger] op_references(apiv[a].operations[b], n);
                assert(refs_upto(apiv, apiv.len() as int, 0, n));
                let m = choose|m: int|
                    0 <= m < raw@.len() && crate::strutil::str_views(raw@)[m] == n;
                assert(crate::strutil::str_views(out@).contains(
                    crate::strutil::str_views(raw@)[m],
                ));
            }
        }
        out
    }
}

/// The views of the raw component-schema table.
pub open spec fn table_view(t: Seq<ComponentEntry>) -> Seq<ComponentEntryV> {
    t.map_values(|c: ComponentEntry| c@)
}

/// The schema stored under `name` in the raw table: the first entry with
/// that name, if any.
pub open spec fn table_lookup(table: Seq<ComponentEntryV>, name: Seq<char>) -> Option<SchemaV>
    decreases table.len(),
{
    if table.len() == 0 {
        None
    } else if table[0].name == name {
        Some(table[0].schema)
    } else {
        table_lookup(table.skip(1), name)
    }
}

proof fn lemma_table_lookup_at(table: Seq<ComponentEntryV>, name: Seq<char>, k: int)
    requires
        0 <= k < table.len(),
        table[k].name == name,
        forall|m: int| 0 <= m < k ==> table[m].name != name,
    ensures
        table_lookup(table, name) == Some(table[k].schema),
    decreases k,
{
    if k > 0 {
        assert(table[0].name != name);
        lemma_table_lookup_at(table.skip(1), name, k - 1);
        assert(table.skip(1)[k - 1] == table[k]);
        assert forall|m: int| 0 <= m < k - 1 implies table.skip(1)[m].name != name by {
            assert(table.skip(1)[m] == table[m + 1]);
        }
    }
}

proof fn lemma_table_lookup_none(table: Seq<ComponentEntryV>, name: Seq<char>)
    requires
        forall|m: int| 0 <= m < table.len() ==> table[m].name != name,
    ensures
        table_lookup(table, name) is None,
    decreases table.len(),
{
    if table.len() > 0 {
        lemma_table_lookup_none(table.skip(1), name);
        assert forall|m: int| 0 <= m < table.len() - 1 implies table.skip(1)[m].name != name by {
            assert(table.skip(1)[m] == table[m + 1]);
        }
        lemma_table_lookup_none(table.skip(1), name);
    }
}

/// Finds the first entry of the raw table with the given name.
#[verifier::loop_isolation(false)]
fn lookup_schema<'a>(schemas: &'a Vec<ComponentEntry>, name: &str) -> (r: Option<&'a Schema>)
    ensures
        match r {
            None => table_lookup(table_view(schemas@), name@) is None,
            Some(s) => table_lookup(table_view(schemas@), name@) == Some(s@),
        },
{
    let ghost tablev = table_view(schemas@);
    let mut i: usize = 0;
    while i < schemas.len()
        invariant
            i <= schemas@.len(),
            forall|m: int| 0 <= m < i ==> (#[trigger] tablev[m]).name != name@,
        decreases schemas@.len() - i,
    {
        assert(tablev[i as int] == schemas@[i as int]@);
        if str_eq(schemas[i].name.as_str(), name) {
            proof {
                lemma_table_lookup_at(tablev, name@, i as int);
            }
            return Some(&schemas[i].schema);
        }
        i += 1;
    }
    proof {
        lemma_table_lookup_none(tablev, name@);
    }
    None
}

/// The names of a sequence of types, in order.
pub open spec fn type_names(ts: Seq<TypeV>) -> Seq<Seq<char>> {
    ts.map_values(|t: TypeV| t.name)
}

/// Whether `t` is exactly what type extraction yields for its name from
/// the raw table.
pub open spec fn spec_built(table: Seq<ComponentEntryV>, t: TypeV) -> bool {
    match table_lookup(table, t.name) {
        Some(SchemaV::Object(o)) => spec_type_from_schema(t.name, o) == Ok::<TypeV, TypeErrorV>(t),
        _ => false,
    }
}

/// Whether the raw table holds, under `n`, an object schema from which
/// type extraction succeeds.
pub open spec fn spec_buildable(table: Seq<ComponentEntryV>, n: Seq<char>) -> bool {
    match table_lookup(table, n) {
        Some(SchemaV::Object(o)) => spec_type_from_schema(n, o) is Ok,
        _ => false,
    }
}

/// What the component resolver returns: only referenced names, sorted,
/// each type built from its raw schema, and every referenced name whose
/// raw schema builds is present.
pub open spec fn spec_types_post(
    api: Seq<ResourceV>,
    table: Seq<ComponentEntryV>,
    out: Seq<TypeV>,
) -> bool {
    &&& sorted_unique(type_names(out))
    &&& forall|k: int| 0 <= k < out.len() ==> spec_is_referenced(api, (#[trigger] out[k]).name)
    &&& forall|k: int| 0 <= k < out.len() ==> spec_built(table, #[trigger] out[k])
    &&& forall|n: Seq<char>|
        spec_is_referenced(api, n) && #[trigger] spec_buildable(table, n) ==> type_names(
            out,
        ).contains(n)
}

impl Api {
    /// Resolves the component schemas referenced by the api's operations
    /// into named types: the intentional tree-shaking of the raw table.
    /// A referenced name that is missing, holds a boolean schema, or
    /// fails extraction is reported and skipped, never fatal.
    #[verifier::loop_isolation(false)]
    pub fn types(&self, schemas: &Vec<ComponentEntry>, diags: &mut Vec<Diagnostic>) -> (r: Types)
        ensures
            extends(old(diags)@, final(diags)@),
            spec_types_post(self@, table_view(schemas@), r@),
    {
        let ghost apiv = self@;
        let ghost tablev = table_view(schemas@);
        let referenced = self.referenced_components();
        let ghost refv = crate::strutil::str_views(referenced@);
        let mut out: Vec<Type> = Vec::new();
        let ghost mut idxs: Seq<int> = Seq::empty();
        assert(ts_view(out@) =~= Seq::<TypeV>::empty());
        let mut i: usize = 0;
        while i < referenced.len()
            invariant
                i <= referenced@.len(),
                extends(old(diags)@, diags@),
                idxs.len() == out@.len(),
                forall|a: int| 0 <= a < idxs.len() ==> 0 <= #[trigger] idxs[a] < i,
                forall|a: int, b: int| 0 <= a < b < idxs.len() ==> idxs[a] < idxs[b],
                forall|a: int| 0 <= a < out@.len() ==> (#[trigger] ts_view(out@)[a]).name == refv[idxs[a]],
                forall|a: int| 0 <= a < out@.len() ==> spec_built(
                    tablev,
                    #[trigger] ts_view(out@)[a],
                ),
                forall|m: int| 0 <= m < i && spec_buildable(tablev, #[trigger] refv[m])
                    ==> type_names(ts_view(out@)).contains(refv[m]),
            decreases referenced@.len() - i,
        {
            let name = &referenced[i];
            assert(refv[i as int] == name@);
            let ghost outv0 = ts_view(out@);
            match lookup_schema(schemas, name.as_str()) {
                None => {
                    push_diag(diags, Severity::Warn, Some(name.clone()), "schema not found");
                    assert(!spec_buildable(tablev, refv[i as int]));
                },
                Some(Schema::Bool(_)) => {
                    push_diag(
                        diags,
                        Severity::Warn,
                        Some(name.clone()),
                        "found $ref'erenced bool schema",
                    );
                    assert(!spec_buildable(tablev, refv[i as int]));
                },
                Some(Schema::Object(o)) => {
                    match Type::from_schema(name.clone(), o) {
                        Err(_) => {
                            push_diag(
                                diags,
                                Severity::Warn,
                                Some(name.clone()),
                                "unsupported component schema",
                            );
                            assert(!spec_buildable(tablev, refv[i as int]));
                        },
                        Ok(t) => {
                            let ghost tv = t@;
                            out.push(t);
                            proof {
                                idxs = idxs.push(i as int);
                                assert(ts_view(out@) =~= outv0.push(tv));
                                assert(tv.name == refv[i as int]);
                                assert(type_names(ts_view(out@))[outv0.len() as int] == refv[
                                    i as int
                                ]);
                                assert forall|m: int|
                                    0 <= m < i + 1 && spec_buildable(
                                        tablev,
                                        #[trigger] refv[m],
                                    ) implies type_names(ts_view(out@)).contains(refv[m]) by {
                                    if m < i {
                                        let m0 = choose|m0: int|
                                            0 <= m0 < type_names(outv0).len() && type_names(
                                                outv0,
                                            )[m0] == refv[m];
                                        assert(type_names(ts_view(out@))[m0] == refv[m]);
                                    } else {
                                        assert(type_names(ts_view(out@)).contains(refv[m]));
                                    }
                                }
                            }
                        },
                    }
                },
            }
            i += 1;
        }
        proof {
            let outv = ts_view(out@);
            assert forall|a: int, b: int| 0 <= a < b < type_names(outv).len() implies lex_lt(
                type_names(outv)[a],
                type_names(outv)[b],
            ) by {
                assert(type_names(outv)[a] == refv[idxs[a]]);
                assert(type_names(outv)[b] == refv[idxs[b]]);
            }
            assert forall|k: int| 0 <= k < outv.len() implies spec_is_referenced(
                apiv,
                (#[trigger] outv[k]).name,
            ) by {
                assert(outv[k].name == refv[idxs[k]]);
                assert(spec_is_referenced(apiv, refv[idxs[k]]));
            }
            assert forall|n: Seq<char>|
                spec_is_referenced(apiv, n) && #[trigger] spec_buildable(
                    tablev,
                    n,
                ) implies type_names(outv).contains(n) by {
                assert(refv.contains(n));
                let m = choose|m: int| 0 <= m < refv.len() && refv[m] == n;
                assert(spec_buildable(tablev, refv[m]));
            }
        }
        Types(out)
    }
}

/// A component schema referenced by some operation's body whose raw
/// table entry is an object schema that extracts successfully appears
/// as exactly one type in the resolver's output, and that type is
/// exactly what type extraction yields.
pub proof fn lemma_referenced_schema_round_trip(
    api: Seq<ResourceV>,
    table: Seq<ComponentEntryV>,
    out: Seq<TypeV>,
    name: Seq<char>,
    o: crate::schema::SchemaObjectV,
)
    requires
        spec_types_post(api, table, out),
        spec_is_referenced(api, name),
        table_lookup(table, name) == Some(SchemaV::Object(o)),
        spec_type_from_schema(name, o) is Ok,
    ensures
        exists|k: int|
            0 <= k < out.len() && (#[trigger] out[k]).name == name && spec_type_from_schema(
                name,
                o,
            ) == Ok::<TypeV, TypeErrorV>(out[k]),
        forall|k1: int, k2: int|
            0 <= k1 < out.len() && 0 <= k2 < out.len() && (#[trigger] out[k1]).name == name && (
            #[trigger] out[k2]).name == name ==> k1 == k2,
{
    assert(spec_buildable(table, name));
    assert(type_names(out).contains(name));
    let k = choose|k: int| 0 <= k < type_names(out).len() && type_names(out)[k] == name;
    assert(out[k].name == name);
    assert(spec_built(table, out[k]));
    assert(0 <= k < out.len() && out[k].name == name && spec_type_from_schema(name, o) == Ok::<
        TypeV,
        TypeErrorV,
    >(out[k]));
    assert forall|k1: int, k2: int|
        0 <= k1 < out.len() && 0 <= k2 < out.len() && (#[trigger] out[k1]).name == name && (
        #[trigger] out[k2]).name == name implies k1 == k2 by {
        lemma_lex_lt_irrefl(name);
        if k1 < k2 {
            assert(lex_lt(type_names(out)[k1], type_names(out)[k2]));
        }
        if k2 < k1 {
            assert(lex_lt(type_names(out)[k2], type_names(out)[k1]));
        }
    }
}

/// Whether a path entry can contribute no fatal error: it is inline,
/// and either it is skipped whole for its own parameters, or each of
/// its operations extracts without a fatal condition.
pub open spec fn path_entry_non_fatal(e: PathEntryV) -> bool {
    match e.item {
        RefOrV::Reference { .. } => false,
        RefOrV::Item(pi) => pi.parameters.len() != 0 || forall|j: int|
            0 <= j < pi.operations.len() ==> #[trigger] spec_extract_operation(
                e.path,
                pi.operations[j].method,
                pi.operations[j].operation,
            ) is Ok,
    }
}

/// An extraction that produced an event did so only after the
/// identifier checks: the event's operation carries a valid identifier.
proof fn lemma_extracted_event_id_valid(
    path: Seq<char>,
    method: Seq<char>,
    op: crate::document::OperationV,
    ev: (Seq<char>, OperationV),
)
    requires
        spec_extract_operation(path, method, op) == Ok::<
            Option<(Seq<char>, OperationV)>,
            FatalError,
        >(Some(ev)),
    ensures
        valid_op_id(ev.1.id),
{
    match op.operation_id {
        None => {},
        Some(id) => {
            match crate::strutil::split3(id) {
                None => {},
                Some(segs) => {
                    if segs.0 == "v1"@ {
                        assert(ev.1.id == id);
                    }
                },
            }
        },
    }
}

proof fn lemma_item_events_non_fatal(path: Seq<char>, ops: Seq<crate::document::MethodOpV>, k: int)
    requires
        0 <= k <= ops.len(),
        forall|j: int|
            k <= j < ops.len() ==> #[trigger] spec_extract_operation(
                path,
                ops[j].method,
                ops[j].operation,
            ) is Ok,
    ensures
        spec_item_events(path, ops, k) is Ok,
        forall|n: int|
            0 <= n < spec_item_events(path, ops, k)->Ok_0.len() ==> valid_op_id(
                (#[trigger] spec_item_events(path, ops, k)->Ok_0[n]).1.id,
            ),
    decreases ops.len() - k,
{
    if k < ops.len() {
        lemma_item_events_non_fatal(path, ops, k + 1);
        match spec_extract_operation(path, ops[k as int].method, ops[k as int].operation) {
            Err(_) => {},
            Ok(None) => {},
            Ok(Some(ev)) => {
                lemma_extracted_event_id_valid(path, ops[k as int].method, ops[k as int].operation, ev);
                let rest = spec_item_events(path, ops, k + 1)->Ok_0;
                assert forall|n: int| 0 <= n < (seq![ev] + rest).len() implies valid_op_id(
                    ((seq![ev] + rest)[n]).1.id,
                ) by {
                    if n > 0 {
                        assert((seq![ev] + rest)[n] == rest[n - 1]);
                    }
                }
            },
        }
    }
}

proof fn lemma_path_events_non_fatal(paths: Seq<PathEntryV>, k: int)
    requires
        0 <= k <= paths.len(),
        forall|m: int| k <= m < paths.len() ==> #[trigger] path_entry_non_fatal(paths[m]),
    ensures
        spec_path_events(paths, k) is Ok,
        forall|n: int|
            0 <= n < spec_path_events(paths, k)->Ok_0.len() ==> valid_op_id(
                (#[trigger] spec_path_events(paths, k)->Ok_0[n]).1.id,
            ),
    decreases paths.len() - k,
{
    if k < paths.len() {
        lemma_path_events_non_fatal(paths, k + 1);
        match paths[k as int].item {
            RefOrV::Reference { .. } => {
                assert(!path_entry_non_fatal(paths[k as int]));
            },
            RefOrV::Item(pi) => {
                assert(path_entry_non_fatal(paths[k as int]));
                if pi.parameters.len() == 0 {
                    assert forall|j: int| 0 <= j < pi.operations.len() implies #[trigger] spec_extract_operation(
                        paths[k as int].path,
                        pi.operations[j].method,
                        pi.operations[j].operation,
                    ) is Ok by {}
                    lemma_item_events_non_fatal(paths[k as int].path, pi.operations, 0);
                    let a = spec_item_events(paths[k as int].path, pi.operations, 0)->Ok_0;
                    let b = spec_path_events(paths, k + 1)->Ok_0;
                    assert forall|n: int| 0 <= n < (a + b).len() implies valid_op_id(
                        ((a + b)[n]).1.id,
                    ) by {
                        if n >= a.len() {
                            assert((a + b)[n] == b[n - a.len()]);
                        }
                    }
                }
            },
        }
    }
}

/// Identifier mismatches alone never abort the compilation: when every
/// path entry is inline and none of its read operations hits a fatal
/// condition, the path-table fold succeeds, and every event it yields
/// carries a valid `v1.<resource>.<op>` identifier — an operation whose
/// identifier does not match contributes nothing to the result.
pub proof fn lemma_id_mismatch_never_fails_compilation(paths: Seq<PathEntryV>)
    requires
        forall|m: int| 0 <= m < paths.len() ==> #[trigger] path_entry_non_fatal(paths[m]),
    ensures
        spec_path_events(paths, 0) is Ok,
        forall|n: int|
            0 <= n < spec_path_events(paths, 0)->Ok_0.len() ==> valid_op_id(
                (#[trigger] spec_path_events(paths, 0)->Ok_0[n]).1.id,
            ),
{
    lemma_path_events_non_fatal(paths, 0);
}

/// Through the grouping of `Api::new` it follows that every operation
/// of every resource carries a valid identifier: an operation whose
/// identifier does not match `v1.<resource>.<op>` is absent from the
/// output api.
pub proof fn lemma_api_operations_have_valid_ids(
    rs: Seq<ResourceV>,
    evs: Seq<(Seq<char>, OperationV)>,
)
    requires
        spec_groups(rs, evs),
        forall|n: int| 0 <= n < evs.len() ==> valid_op_id((#[trigger] evs[n]).1.id),
    ensures
        forall|i: int, j: int|
            0 <= i < rs.len() && 0 <= j < rs[i].operations.len() ==> valid_op_id(
                #[trigger] rs[i].operations[j].id,
            ),
{
    assert forall|i: int, j: int|
        0 <= i < rs.len() && 0 <= j < rs[i].operations.len() implies valid_op_id(
        #[trigger] rs[i].operations[j].id,
    ) by {
        let pred = claims(rs[i].name);
        let filtered = evs.filter(pred);
        assert(rs[i].operations == filtered.map_values(event_op()));
        assert(rs[i].operations[j] == filtered[j].1);
        assert(filtered.contains(filtered[j]));
        evs.lemma_filter_contains_rev(pred, filtered[j]);
        let n = choose|n: int| 0 <= n < evs.len() && evs[n] == filtered[j];
        assert(valid_op_id(evs[n].1.id));
    }
}

/// A component schema present in the raw table but never referenced by
/// any operation's body never appears in the resolver's output.
pub proof fn lemma_unreferenced_schema_absent(
    api: Seq<ResourceV>,
    table: Seq<ComponentEntryV>,
    out: Seq<TypeV>,
    name: Seq<char>,
)
    requires
        spec_types_post(api, table, out),
        !spec_is_referenced(api, name),
    ensures
        forall|k: int| 0 <= k < out.len() ==> (#[trigger] out[k]).name != name,
{
}

} // verus!
