//! What holds of a dependency on its way from a submitted declaration to a
//! stored row and on to the forms in which it is shown.

use crate::dependency::{
    is_first_rejected, lemma_first_rejected_decides, lemma_some_first_rejected, prepare,
    prepare_all, DependencyView, NewDependencyView, RowView,
};
use crate::error::{DataCorruptionView, ValidationErrorView};
use crate::kind::Kind;
use crate::krate::{is_first_named, resolve, CrateView};
use crate::req::{parsed_req, ReqView};
use crate::upload::CrateDependencyView;
use vstd::prelude::*;

verus! {

/// Holds where `row` is what storage keeps for `new`: the same columns, under
/// whatever identifier storage chose.
pub open spec fn stored_as(row: RowView, new: NewDependencyView) -> bool {
    &&& row.version_id == new.version_id
    &&& row.crate_id == new.crate_id
    &&& row.req == new.req
    &&& row.optional == new.optional
    &&& row.default_features == new.default_features
    &&& row.features == new.features
    &&& row.target == new.target
    &&& row.kind == new.kind
}

/// Holds where the parser accepts `text` and reads the text that it prints
/// for it as the same requirement again.
pub open spec fn reads_back(text: Seq<char>) -> bool {
    parsed_req(text) matches Some(req) && parsed_req(req.text) == Some(req)
}

/// A batch is taken exactly when each of its declarations is, and then the
/// rows are those of the declarations, one for one and in order.
pub proof fn lemma_batch_taken(
    deps: Seq<CrateDependencyView>,
    crates: Seq<CrateView>,
    version_id: i32,
)
    ensures
        prepare_all(deps, crates, version_id) is Ok <==> forall|i: int|
            0 <= i < deps.len() ==> prepare(#[trigger] deps[i], crates, version_id) is Ok,
        prepare_all(deps, crates, version_id) matches Ok(rows) ==> rows.len() == deps.len()
            && forall|i: int|
            0 <= i < deps.len() ==> prepare(#[trigger] deps[i], crates, version_id) == Ok::<
                NewDependencyView,
                ValidationErrorView,
            >(rows[i]),
{
    if prepare_all(deps, crates, version_id) is Ok {
        assert forall|i: int| 0 <= i < deps.len() implies prepare(
            #[trigger] deps[i],
            crates,
            version_id,
        ) is Ok by {
            if prepare(deps[i], crates, version_id) is Err {
                lemma_some_first_rejected(deps, crates, version_id, i);
            }
        }
    } else {
        let k = choose|k: int| is_first_rejected(deps, crates, version_id, k);
        assert(prepare(deps[k], crates, version_id) is Err);
    }
}

/// Holds of a row to store that meets what a record must: its target is a
/// package of the table, its requirement is the printed text of one that the
/// parser accepts and that constrains something, and its kind code stands
/// for a kind.
pub open spec fn storable(new: NewDependencyView, crates: Seq<CrateView>) -> bool {
    &&& exists|k: int| 0 <= k < crates.len() && (#[trigger] crates[k]).id == new.crate_id
    &&& exists|source: Seq<char>| #[trigger]
        parsed_req(source) == Some(ReqView { text: new.req, wildcard: false })
    &&& Kind::spec_from_code(new.kind) is Some
}

/// Every row of an accepted batch is fit to store, belongs to the version
/// the batch was submitted for, and carries the declared feature names as
/// they were declared.
pub proof fn lemma_accepted_rows_storable(
    deps: Seq<CrateDependencyView>,
    crates: Seq<CrateView>,
    version_id: i32,
    i: int,
)
    requires
        prepare_all(deps, crates, version_id) is Ok,
        0 <= i < deps.len(),
    ensures
        storable(prepare_all(deps, crates, version_id)->Ok_0[i], crates),
        prepare_all(deps, crates, version_id)->Ok_0[i].version_id == version_id,
        prepare_all(deps, crates, version_id)->Ok_0[i].features == deps[i].features,
{
    lemma_batch_taken(deps, crates, version_id);
    assert(prepare(deps[i], crates, version_id) is Ok);
    let k = choose|k: int| is_first_named(crates, deps[i].name, k);
    assert(crates[k].id == prepare_all(deps, crates, version_id)->Ok_0[i].crate_id);
    assert(parsed_req(deps[i].version_req) is Some);
    Kind::lemma_code_round_trip(Kind::spec_or_default(deps[i].kind), 0);
}

/// A declaration that names a package unknown to the table fails the whole
/// batch: no rows come out. Where every declaration before it is in order,
/// the error is `UnknownPackage` with the declared name.
pub proof fn lemma_unknown_package_fails_batch(
    deps: Seq<CrateDependencyView>,
    crates: Seq<CrateView>,
    version_id: i32,
    i: int,
)
    requires
        0 <= i < deps.len(),
        resolve(crates, deps[i].name) is None,
    ensures
        prepare_all(deps, crates, version_id) is Err,
        (forall|j: int| 0 <= j < i ==> prepare(#[trigger] deps[j], crates, version_id) is Ok)
            ==> prepare_all(deps, crates, version_id) == Err::<
            Seq<NewDependencyView>,
            ValidationErrorView,
        >(ValidationErrorView::UnknownPackage(deps[i].name)),
{
    lemma_some_first_rejected(deps, crates, version_id, i);
    let k = choose|k: int| 0 <= k <= i && is_first_rejected(deps, crates, version_id, k);
    lemma_first_rejected_decides(deps, crates, version_id, k);
    if forall|j: int| 0 <= j < i ==> prepare(#[trigger] deps[j], crates, version_id) is Ok {
        if k < i {
            assert(prepare(deps[k], crates, version_id) is Ok);
        }
    }
}

/// A declaration whose requirement constrains nothing fails the whole batch,
/// whatever the other declarations hold. Where its name is known and every
/// declaration before it is in order, the error is `DisallowedConstraint`.
pub proof fn lemma_wildcard_fails_batch(
    deps: Seq<CrateDependencyView>,
    crates: Seq<CrateView>,
    version_id: i32,
    i: int,
)
    requires
        0 <= i < deps.len(),
        parsed_req(deps[i].version_req) matches Some(req) && req.wildcard,
    ensures
        prepare_all(deps, crates, version_id) is Err,
        resolve(crates, deps[i].name) is Some && (forall|j: int|
            0 <= j < i ==> prepare(#[trigger] deps[j], crates, version_id) is Ok) ==> prepare_all(
            deps,
            crates,
            version_id,
        ) == Err::<Seq<NewDependencyView>, ValidationErrorView>(
            ValidationErrorView::DisallowedConstraint,
        ),
{
    lemma_some_first_rejected(deps, crates, version_id, i);
    let k = choose|k: int| 0 <= k <= i && is_first_rejected(deps, crates, version_id, k);
    lemma_first_rejected_decides(deps, crates, version_id, k);
    if forall|j: int| 0 <= j < i ==> prepare(#[trigger] deps[j], crates, version_id) is Ok {
        if k < i {
            assert(prepare(deps[k], crates, version_id) is Ok);
        }
    }
}

/// A declaration that leaves its kind out is treated as one that states
/// `Normal`: the same row or the same error, and a row with kind code 0.
pub proof fn lemma_omitted_kind_is_normal(
    dep: CrateDependencyView,
    crates: Seq<CrateView>,
    version_id: i32,
)
    requires
        dep.kind is None,
    ensures
        prepare(dep, crates, version_id) == prepare(
            CrateDependencyView { kind: Some(Kind::Normal), ..dep },
            crates,
            version_id,
        ),
        prepare(dep, crates, version_id) matches Ok(row) ==> row.kind == 0,
{
}

/// Two batches that differ only in that one leaves out kinds which the other
/// states as `Normal` have the same outcome.
pub proof fn lemma_omitted_kinds_same_batch(
    deps: Seq<CrateDependencyView>,
    stated: Seq<CrateDependencyView>,
    crates: Seq<CrateView>,
    version_id: i32,
)
    requires
        stated.len() == deps.len(),
        forall|i: int|
            0 <= i < deps.len() ==> #[trigger] stated[i] == (CrateDependencyView {
                kind: Some(Kind::spec_or_default(deps[i].kind)),
                ..deps[i]
            }),
    ensures
        prepare_all(deps, crates, version_id) == prepare_all(stated, crates, version_id),
{
    assert forall|i: int| 0 <= i < deps.len() implies prepare(deps[i], crates, version_id)
        == prepare(#[trigger] stated[i], crates, version_id) by {}
    lemma_batch_taken(deps, crates, version_id);
    lemma_batch_taken(stated, crates, version_id);
    if prepare_all(deps, crates, version_id) is Ok {
        assert forall|i: int| 0 <= i < stated.len() implies prepare(
            #[trigger] stated[i],
            crates,
            version_id,
        ) is Ok by {
            assert(prepare(deps[i], crates, version_id) is Ok);
        }
        assert(prepare_all(deps, crates, version_id)->Ok_0 =~= prepare_all(
            stated,
            crates,
            version_id,
        )->Ok_0);
    } else {
        let k = choose|k: int| is_first_rejected(deps, crates, version_id, k);
        assert(is_first_rejected(stated, crates, version_id, k)) by {
            assert forall|j: int| 0 <= j < k implies prepare(
                #[trigger] stated[j],
                crates,
                version_id,
            ) is Ok by {
                assert(prepare(deps[j], crates, version_id) is Ok);
            }
        }
        lemma_first_rejected_decides(deps, crates, version_id, k);
        lemma_first_rejected_decides(stated, crates, version_id, k);
    }
}

/// The stored row of a declaration that left its kind out reads as `Normal`,
/// and both outward forms say so: the index line states the kind, the public
/// form shows it.
pub proof fn lemma_omitted_kind_shown_as_normal(
    dep: CrateDependencyView,
    crates: Seq<CrateView>,
    version_id: i32,
    row: RowView,
    crate_name: Seq<char>,
    downloads: Option<i32>,
)
    requires
        dep.kind is None,
        prepare(dep, crates, version_id) matches Ok(new) && stored_as(row, new),
        row.read() is Ok,
    ensures
        row.read()->Ok_0.kind == Kind::Normal,
        row.read()->Ok_0.git_encode(crate_name).kind == Some(Kind::Normal),
        row.read()->Ok_0.encodable(crate_name, downloads).kind == Kind::Normal,
{
}

/// From submission to the public form. Take a batch that is accepted, and
/// the row that storage keeps for its declaration `i`. Where the parser reads
/// back what it prints for the declared requirement, the row reads as a
/// record, and the public form of that record under the declared name shows
/// what was declared: the name, the flags, the features, the target, the kind
/// (`Normal` if left out), the version it belongs to, no downloads, and as
/// requirement the text that the parser prints for the declared one. That
/// text is the declared string itself where the string is in printed form.
/// The record's target is the package that the declared name resolves to.
pub proof fn lemma_submitted_then_shown(
    deps: Seq<CrateDependencyView>,
    crates: Seq<CrateView>,
    version_id: i32,
    i: int,
    row: RowView,
)
    requires
        prepare_all(deps, crates, version_id) is Ok,
        0 <= i < deps.len(),
        stored_as(row, prepare_all(deps, crates, version_id)->Ok_0[i]),
        reads_back(deps[i].version_req),
    ensures
        row.read() is Ok,
        resolve(crates, deps[i].name) == Some(row.read()->Ok_0.crate_id),
        !row.read()->Ok_0.req.wildcard,
        ({
            let shown = row.read()->Ok_0.encodable(deps[i].name, None);
            &&& shown.id == row.id
            &&& shown.version_id == version_id
            &&& shown.crate_id == deps[i].name
            &&& shown.req == parsed_req(deps[i].version_req)->0.text
            &&& parsed_req(deps[i].version_req)->0.text == deps[i].version_req ==> shown.req
                == deps[i].version_req
            &&& shown.optional == deps[i].optional
            &&& shown.default_features == deps[i].default_features
            &&& shown.features == deps[i].features
            &&& shown.target == deps[i].target
            &&& shown.kind == Kind::spec_or_default(deps[i].kind)
            &&& shown.downloads == 0
        }),
{
    lemma_batch_taken(deps, crates, version_id);
    assert(prepare(deps[i], crates, version_id) is Ok);
    Kind::lemma_code_round_trip(Kind::spec_or_default(deps[i].kind), 0);
}

/// From submission to the index and back to the parser. With the batch, the
/// row and the condition as above: the requirement text of the index line,
/// read by the parser again, is the requirement that was submitted.
pub proof fn lemma_index_requirement_reads_as_submitted(
    deps: Seq<CrateDependencyView>,
    crates: Seq<CrateView>,
    version_id: i32,
    i: int,
    row: RowView,
    crate_name: Seq<char>,
)
    requires
        prepare_all(deps, crates, version_id) is Ok,
        0 <= i < deps.len(),
        stored_as(row, prepare_all(deps, crates, version_id)->Ok_0[i]),
        reads_back(deps[i].version_req),
    ensures
        row.read() is Ok,
        parsed_req(row.read()->Ok_0.git_encode(crate_name).req) == parsed_req(
            deps[i].version_req,
        ),
        row.read()->Ok_0.git_encode(crate_name).kind == Some(
            Kind::spec_or_default(deps[i].kind),
        ),
{
    lemma_batch_taken(deps, crates, version_id);
    assert(prepare(deps[i], crates, version_id) is Ok);
    Kind::lemma_code_round_trip(Kind::spec_or_default(deps[i].kind), 0);
}

/// A record prepared for storage and read back from the row kept for it is
/// the same record under the identifier that storage chose, where the parser
/// reads back the text of its requirement.
pub proof fn lemma_insert_then_read(dep: DependencyView, row: RowView)
    requires
        stored_as(row, dep.to_new()),
        parsed_req(dep.req.text) == Some(dep.req),
    ensures
        row.read() == Ok::<DependencyView, DataCorruptionView>(
            DependencyView { id: row.id, ..dep },
        ),
{
    Kind::lemma_code_round_trip(dep.kind, 0);
}

} // verus!
