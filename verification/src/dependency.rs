//! Dependency records: how a stored row is read into one, and the forms in
//! which one is shown.

use crate::error::{
    fault_view, DataCorruption, DataCorruptionView, ValidationError, ValidationErrorView,
};
use crate::git;
use crate::kind::Kind;
use crate::krate::{crates_view, find_crate, resolve, Crate, CrateView};
use crate::req::{parsed_req, reading_view, ReqView, VersionReq};
use crate::text::{clone_optional, clone_strings};
use crate::upload::{declarations_view, CrateDependency, CrateDependencyView};
use vstd::prelude::*;

verus! {

/// One dependency edge: the version `version_id` needs the package `crate_id`.
#[derive(Clone, Debug, PartialEq, Eq)]
pub struct Dependency {
    pub id: i32,
    pub version_id: i32,
    pub crate_id: i32,
    pub req: VersionReq,
    pub optional: bool,
    pub default_features: bool,
    pub features: Vec<String>,
    pub target: Option<String>,
    pub kind: Kind,
}

/// A record as contracts speak of it: strings as their characters.
pub struct DependencyView {
    pub id: i32,
    pub version_id: i32,
    pub crate_id: i32,
    pub req: ReqView,
    pub optional: bool,
    pub default_features: bool,
    pub features: Seq<Seq<char>>,
    pub target: Option<Seq<char>>,
    pub kind: Kind,
}

impl View for Dependency {
    type V = DependencyView;

    open spec fn view(&self) -> DependencyView {
        DependencyView {
            id: self.id,
            version_id: self.version_id,
            crate_id: self.crate_id,
            req: self.req@,
            optional: self.optional,
            default_features: self.default_features,
            features: self.features.deep_view(),
            target: self.target.deep_view(),
            kind: self.kind,
        }
    }
}

/// A dependency edge seen from its target: the record, with the name and the
/// download count of the package that declares it.
#[derive(Clone, Debug, PartialEq, Eq)]
pub struct ReverseDependency {
    dependency: Dependency,
    crate_name: String,
    crate_downloads: i32,
}

/// A reverse dependency as contracts speak of it.
pub struct ReverseDependencyView {
    pub dependency: DependencyView,
    pub crate_name: Seq<char>,
    pub crate_downloads: i32,
}

impl View for ReverseDependency {
    type V = ReverseDependencyView;

    closed spec fn view(&self) -> ReverseDependencyView {
        ReverseDependencyView {
            dependency: self.dependency@,
            crate_name: self.crate_name@,
            crate_downloads: self.crate_downloads,
        }
    }
}

/// A dependency as the public interface shows it. `crate_id` holds a package
/// name here, and `downloads` is zero where no count applies.
#[derive(Clone, Debug, PartialEq, Eq)]
pub struct EncodableDependency {
    pub id: i32,
    pub version_id: i32,
    pub crate_id: String,
    pub req: String,
    pub optional: bool,
    pub default_features: bool,
    pub features: Vec<String>,
    pub target: Option<String>,
    pub kind: Kind,
    pub downloads: i32,
}

/// The public form as contracts speak of it.
pub struct EncodableDependencyView {
    pub id: i32,
    pub version_id: i32,
    pub crate_id: Seq<char>,
    pub req: Seq<char>,
    pub optional: bool,
    pub default_features: bool,
    pub features: Seq<Seq<char>>,
    pub target: Option<Seq<char>>,
    pub kind: Kind,
    pub downloads: i32,
}

impl View for EncodableDependency {
    type V = EncodableDependencyView;

    open spec fn view(&self) -> EncodableDependencyView {
        EncodableDependencyView {
            id: self.id,
            version_id: self.version_id,
            crate_id: self.crate_id@,
            req: self.req@,
            optional: self.optional,
            default_features: self.default_features,
            features: self.features.deep_view(),
            target: self.target.deep_view(),
            kind: self.kind,
            downloads: self.downloads,
        }
    }
}

/// A dependency ready to be stored: everything but the identifier, which
/// storage gives. The requirement is text and the kind is its code.
#[derive(Clone, Debug, PartialEq, Eq)]
pub struct NewDependency {
    pub version_id: i32,
    pub crate_id: i32,
    pub req: String,
    pub optional: bool,
    pub default_features: bool,
    pub features: Vec<String>,
    pub target: Option<String>,
    pub kind: i32,
}

/// A row to store as contracts speak of it.
pub struct NewDependencyView {
    pub version_id: i32,
    pub crate_id: i32,
    pub req: Seq<char>,
    pub optional: bool,
    pub default_features: bool,
    pub features: Seq<Seq<char>>,
    pub target: Option<Seq<char>>,
    pub kind: i32,
}

impl View for NewDependency {
    type V = NewDependencyView;

    open spec fn view(&self) -> NewDependencyView {
        NewDependencyView {
            version_id: self.version_id,
            crate_id: self.crate_id,
            req: self.req@,
            optional: self.optional,
            default_features: self.default_features,
            features: self.features.deep_view(),
            target: self.target.deep_view(),
            kind: self.kind,
        }
    }
}

/// A stored dependency, column by column.
#[derive(Clone, Debug, PartialEq, Eq)]
pub struct Row {
    pub id: i32,
    pub version_id: i32,
    pub crate_id: i32,
    pub req: String,
    pub optional: bool,
    pub default_features: bool,
    pub features: Vec<String>,
    pub target: Option<String>,
    pub kind: i32,
}

/// A stored row as contracts speak of it.
pub struct RowView {
    pub id: i32,
    pub version_id: i32,
    pub crate_id: i32,
    pub req: Seq<char>,
    pub optional: bool,
    pub default_features: bool,
    pub features: Seq<Seq<char>>,
    pub target: Option<Seq<char>>,
    pub kind: i32,
}

impl View for Row {
    type V = RowView;

    open spec fn view(&self) -> RowView {
        RowView {
            id: self.id,
            version_id: self.version_id,
            crate_id: self.crate_id,
            req: self.req@,
            optional: self.optional,
            default_features: self.default_features,
            features: self.features.deep_view(),
            target: self.target.deep_view(),
            kind: self.kind,
        }
    }
}

/// A stored dependency joined with the package that declares it.
#[derive(Clone, Debug, PartialEq, Eq)]
pub struct ReverseRow {
    pub dependency: Row,
    pub crate_name: String,
    pub crate_downloads: i32,
}

/// A joined row as contracts speak of it.
pub struct ReverseRowView {
    pub dependency: RowView,
    pub crate_name: Seq<char>,
    pub crate_downloads: i32,
}

impl View for ReverseRow {
    type V = ReverseRowView;

    open spec fn view(&self) -> ReverseRowView {
        ReverseRowView {
            dependency: self.dependency@,
            crate_name: self.crate_name@,
            crate_downloads: self.crate_downloads,
        }
    }
}

impl RowView {
    /// The fault in this row, if any, given what the parser makes of its
    /// requirement column. The kind code is looked at first.
    pub open spec fn fault_with(self, req: Option<ReqView>) -> Option<DataCorruptionView> {
        if Kind::spec_from_code(self.kind) is None {
            Some(DataCorruptionView::UnknownKind(self.kind))
        } else if req is None {
            Some(DataCorruptionView::MalformedRequirement(self.req))
        } else {
            None
        }
    }

    /// What the row reads as, given what the parser makes of its requirement
    /// column: the record it stands for, or the fault in it.
    pub open spec fn read_with(self, req: Option<ReqView>) -> Result<
        DependencyView,
        DataCorruptionView,
    > {
        match self.fault_with(req) {
            Some(fault) => Err(fault),
            None => Ok(
                DependencyView {
                    id: self.id,
                    version_id: self.version_id,
                    crate_id: self.crate_id,
                    req: req->0,
                    optional: self.optional,
                    default_features: self.default_features,
                    features: self.features,
                    target: self.target,
                    kind: Kind::spec_from_code(self.kind)->0,
                },
            ),
        }
    }

    /// What the row reads as: the record it stands for, or the fault in it.
    pub open spec fn read(self) -> Result<DependencyView, DataCorruptionView> {
        self.read_with(parsed_req(self.req))
    }
}

impl ReverseRowView {
    /// What the joined row reads as: the record with the declaring package's
    /// name and download count beside it, or the fault in the record's columns.
    pub open spec fn read(self) -> Result<ReverseDependencyView, DataCorruptionView> {
        match self.dependency.read() {
            Ok(dependency) => Ok(
                ReverseDependencyView {
                    dependency,
                    crate_name: self.crate_name,
                    crate_downloads: self.crate_downloads,
                },
            ),
            Err(fault) => Err(fault),
        }
    }
}

impl DependencyView {
    /// The row under which this record is stored for the first time: all of it
    /// but the identifier.
    pub open spec fn to_new(self) -> NewDependencyView {
        NewDependencyView {
            version_id: self.version_id,
            crate_id: self.crate_id,
            req: self.req.text,
            optional: self.optional,
            default_features: self.default_features,
            features: self.features,
            target: self.target,
            kind: self.kind.spec_code(),
        }
    }

    /// The index line for this record, its target called `crate_name`.
    pub open spec fn git_encode(self, crate_name: Seq<char>) -> git::DependencyView {
        git::DependencyView {
            name: crate_name,
            req: self.req.text,
            features: self.features,
            optional: self.optional,
            default_features: self.default_features,
            target: self.target,
            kind: Some(self.kind),
        }
    }

    /// The public form of this record under the name `crate_name`, with the
    /// download count given, or zero.
    pub open spec fn encodable(
        self,
        crate_name: Seq<char>,
        downloads: Option<i32>,
    ) -> EncodableDependencyView {
        EncodableDependencyView {
            id: self.id,
            version_id: self.version_id,
            crate_id: crate_name,
            req: self.req.text,
            optional: self.optional,
            default_features: self.default_features,
            features: self.features,
            target: self.target,
            kind: self.kind,
            downloads: match downloads {
                Some(count) => count,
                None => 0i32,
            },
        }
    }
}

impl ReverseDependencyView {
    /// The public form of a reverse dependency: name and downloads are those
    /// of the package that declares the dependency, not of its target.
    pub open spec fn encodable(self) -> EncodableDependencyView {
        self.dependency.encodable(self.crate_name, Some(self.crate_downloads))
    }
}

impl Row {
    /// Finds the fault in a stored row, given what the parser made of its
    /// requirement column: a kind code that stands for no kind, or else a
    /// requirement that the parser rejected. `None` for a sound row.
    pub fn fault_in(&self, req: &Option<VersionReq>) -> (fault: Option<DataCorruption>)
        ensures
            fault_view(fault) == self@.fault_with(reading_view(*req)),
    {
        if Kind::from_code(self.kind).is_none() {
            Some(DataCorruption::UnknownKind(self.kind))
        } else if req.is_none() {
            Some(DataCorruption::MalformedRequirement(self.req.clone()))
        } else {
            None
        }
    }
}

impl Dependency {
    /// The table that holds the records.
    pub fn table_name() -> (name: &'static str)
        ensures
            name@ == "dependencies"@,
    {
        "dependencies"
    }

    /// Prepares the row that stores a new dependency edge. Storage assigns
    /// the identifier; the stored row is then read with `from_row`.
    pub fn insert(
        version_id: i32,
        crate_id: i32,
        req: &VersionReq,
        kind: Kind,
        optional: bool,
        default_features: bool,
        features: &[String],
        target: &Option<String>,
    ) -> (row: NewDependency)
        ensures
            row@ == (NewDependencyView {
                version_id,
                crate_id,
                req: req@.text,
                optional,
                default_features,
                features: features.deep_view(),
                target: target.deep_view(),
                kind: kind.spec_code(),
            }),
    {
        NewDependency {
            version_id,
            crate_id,
            req: req.to_string(),
            optional,
            default_features,
            features: clone_strings(features),
            target: clone_optional(target),
            kind: kind.code(),
        }
    }

    /// Reads a stored row given as its nine columns in table order. The row
    /// must be sound: a known kind code and a requirement the parser accepts.
    pub fn build(
        row: (i32, i32, i32, String, bool, bool, Vec<String>, Option<String>, i32),
    ) -> (dep: Dependency)
        requires
            Kind::spec_from_code(row.8) is Some,
            parsed_req(row.3@) is Some,
        ensures
            dep.req.wf(),
            Ok::<DependencyView, DataCorruptionView>(dep@) == (RowView {
                id: row.0,
                version_id: row.1,
                crate_id: row.2,
                req: row.3@,
                optional: row.4,
                default_features: row.5,
                features: row.6.deep_view(),
                target: row.7.deep_view(),
                kind: row.8,
            }).read(),
    {
        let req = VersionReq::parse(row.3.as_str()).unwrap();
        let kind = Kind::from_code(row.8).unwrap();
        Dependency {
            id: row.0,
            version_id: row.1,
            crate_id: row.2,
            req,
            optional: row.4,
            default_features: row.5,
            features: row.6,
            target: row.7,
            kind,
        }
    }

    /// Reads a stored row that is sound.
    pub fn from_row(row: Row) -> (dep: Dependency)
        requires
            row@.read() is Ok,
        ensures
            dep.req.wf(),
            Ok::<DependencyView, DataCorruptionView>(dep@) == row@.read(),
    {
        Dependency::build(
            (
                row.id,
                row.version_id,
                row.crate_id,
                row.req,
                row.optional,
                row.default_features,
                row.features,
                row.target,
                row.kind,
            ),
        )
    }

    /// Reads a stored row, sound or not: the record, or the fault that keeps
    /// the row from being one. No kind is made up for an unknown code.
    pub fn try_from_row(row: Row) -> (r: Result<Dependency, DataCorruption>)
        ensures
            match r {
                Ok(dep) => row@.read() == Ok::<DependencyView, DataCorruptionView>(dep@)
                    && dep.req.wf(),
                Err(fault) => row@.read() == Err::<DependencyView, DataCorruptionView>(fault@),
            },
    {
        let req = VersionReq::parse(row.req.as_str());
        match row.fault_in(&req) {
            Some(fault) => Err(fault),
            None => Ok(Dependency::from_row(row)),
        }
    }

    /// The index line for this record. The record holds its target only by
    /// identifier, so the caller gives the target's name.
    pub fn git_encode(self, crate_name: &str) -> (line: git::Dependency)
        ensures
            line@ == self@.git_encode(crate_name@),
    {
        git::Dependency {
            name: crate_name.to_owned(),
            req: self.req.to_string(),
            features: self.features,
            optional: self.optional,
            default_features: self.default_features,
            target: self.target,
            kind: Some(self.kind),
        }
    }

    /// The public form of this record. `downloads` is given only for a
    /// reverse dependency; without it the count shown is zero.
    pub fn encodable(self, crate_name: &str, downloads: Option<i32>) -> (shown: EncodableDependency)
        ensures
            shown@ == self@.encodable(crate_name@, downloads),
    {
        EncodableDependency {
            id: self.id,
            version_id: self.version_id,
            crate_id: crate_name.to_owned(),
            req: self.req.to_string(),
            optional: self.optional,
            default_features: self.default_features,
            features: self.features,
            target: self.target,
            kind: self.kind,
            downloads: match downloads {
                Some(count) => count,
                None => 0,
            },
        }
    }
}

impl ReverseDependency {
    /// Reads a joined row whose dependency columns are sound.
    pub fn from_row(row: ReverseRow) -> (rev: ReverseDependency)
        requires
            row@.read() is Ok,
        ensures
            Ok::<ReverseDependencyView, DataCorruptionView>(rev@) == row@.read(),
    {
        ReverseDependency {
            dependency: Dependency::from_row(row.dependency),
            crate_name: row.crate_name,
            crate_downloads: row.crate_downloads,
        }
    }

    /// Reads a joined row, sound or not.
    pub fn try_from_row(row: ReverseRow) -> (r: Result<ReverseDependency, DataCorruption>)
        ensures
            match r {
                Ok(rev) => row@.read() == Ok::<ReverseDependencyView, DataCorruptionView>(rev@),
                Err(fault) => row@.read() == Err::<ReverseDependencyView, DataCorruptionView>(
                    fault@,
                ),
            },
    {
        let req = VersionReq::parse(row.dependency.req.as_str());
        match row.dependency.fault_in(&req) {
            Some(fault) => Err(fault),
            None => Ok(ReverseDependency::from_row(row)),
        }
    }

    /// The public form of a reverse dependency. Name and downloads shown are
    /// those of the package that declares the dependency.
    pub fn encodable(self) -> (shown: EncodableDependency)
        ensures
            shown@ == self@.encodable(),
            shown@.crate_id == self@.crate_name,
            shown@.downloads == self@.crate_downloads,
    {
        let name = self.crate_name;
        self.dependency.encodable(name.as_str(), Some(self.crate_downloads))
    }
}

/// What becomes of one declaration, given the identifier that its name
/// resolves to and what the parser makes of its requirement: the row to store
/// for it, or the reason to turn it down. An unresolved name comes first, then
/// a requirement that the parser rejects, then one that constrains nothing.
/// A kind left out counts as `Normal`.
pub open spec fn prepare_with(
    dep: CrateDependencyView,
    crate_id: Option<i32>,
    req: Option<ReqView>,
    version_id: i32,
) -> Result<NewDependencyView, ValidationErrorView> {
    if crate_id is None {
        Err(ValidationErrorView::UnknownPackage(dep.name))
    } else if req is None {
        Err(ValidationErrorView::MalformedConstraint(dep.version_req))
    } else if req->0.wildcard {
        Err(ValidationErrorView::DisallowedConstraint)
    } else {
        Ok(
            NewDependencyView {
                version_id,
                crate_id: crate_id->0,
                req: req->0.text,
                optional: dep.optional,
                default_features: dep.default_features,
                features: dep.features,
                target: dep.target,
                kind: Kind::spec_or_default(dep.kind).spec_code(),
            },
        )
    }
}

/// What becomes of one declaration, given the packages that the table knows.
pub open spec fn prepare(
    dep: CrateDependencyView,
    crates: Seq<CrateView>,
    version_id: i32,
) -> Result<NewDependencyView, ValidationErrorView> {
    prepare_with(dep, resolve(crates, dep.name), parsed_req(dep.version_req), version_id)
}

/// Holds where declaration `i` is turned down and every one before it is taken.
pub open spec fn is_first_rejected(
    deps: Seq<CrateDependencyView>,
    crates: Seq<CrateView>,
    version_id: i32,
    i: int,
) -> bool {
    &&& 0 <= i < deps.len()
    &&& prepare(deps[i], crates, version_id) is Err
    &&& forall|j: int| 0 <= j < i ==> prepare(#[trigger] deps[j], crates, version_id) is Ok
}

/// What becomes of a batch: the rows to store, one for each declaration in
/// order, or the reason that the first declaration at fault is turned down for.
pub open spec fn prepare_all(
    deps: Seq<CrateDependencyView>,
    crates: Seq<CrateView>,
    version_id: i32,
) -> Result<Seq<NewDependencyView>, ValidationErrorView> {
    if exists|i: int| is_first_rejected(deps, crates, version_id, i) {
        let first = choose|i: int| is_first_rejected(deps, crates, version_id, i);
        Err(prepare(deps[first], crates, version_id)->Err_0)
    } else {
        Ok(Seq::new(deps.len(), |i: int| prepare(deps[i], crates, version_id)->Ok_0))
    }
}

/// The views of a list of rows to store, in order.
pub open spec fn news_view(rows: Seq<NewDependency>) -> Seq<NewDependencyView> {
    rows.map_values(|row: NewDependency| row@)
}

/// The batch is turned down for the reason of its first declaration at fault.
pub proof fn lemma_first_rejected_decides(
    deps: Seq<CrateDependencyView>,
    crates: Seq<CrateView>,
    version_id: i32,
    i: int,
)
    requires
        is_first_rejected(deps, crates, version_id, i),
    ensures
        prepare_all(deps, crates, version_id) == Err::<
            Seq<NewDependencyView>,
            ValidationErrorView,
        >(prepare(deps[i], crates, version_id)->Err_0),
{
    let k = choose|k: int| is_first_rejected(deps, crates, version_id, k);
    if i < k {
        assert(prepare(deps[i], crates, version_id) is Ok);
    } else if k < i {
        assert(prepare(deps[k], crates, version_id) is Ok);
    }
}

/// Where some declaration is turned down, one of them is the first.
pub proof fn lemma_some_first_rejected(
    deps: Seq<CrateDependencyView>,
    crates: Seq<CrateView>,
    version_id: i32,
    i: int,
)
    requires
        0 <= i < deps.len(),
        prepare(deps[i], crates, version_id) is Err,
    ensures
        exists|k: int| 0 <= k <= i && is_first_rejected(deps, crates, version_id, k),
    decreases i,
{
    if exists|j: int| 0 <= j < i && prepare(#[trigger] deps[j], crates, version_id) is Err {
        let j = choose|j: int| 0 <= j < i && prepare(#[trigger] deps[j], crates, version_id) is Err;
        lemma_some_first_rejected(deps, crates, version_id, j);
    } else {
        assert(is_first_rejected(deps, crates, version_id, i));
    }
}

/// The names that a batch declares, in order: what the table is asked about.
pub fn crate_names(deps: &[CrateDependency]) -> (names: Vec<String>)
    ensures
        names.deep_view() == declarations_view(deps@).map_values(|d: CrateDependencyView| d.name),
{
    let mut names: Vec<String> = Vec::new();
    let mut i: usize = 0;
    while i < deps.len()
        invariant
            i <= deps.len(),
            names.len() == i,
            forall|j: int| 0 <= j < i ==> names[j]@ == deps[j].name@,
        decreases deps.len() - i,
    {
        names.push(deps[i].name.clone());
        i = i + 1;
    }
    assert(names.deep_view() =~= declarations_view(deps@).map_values(
        |d: CrateDependencyView| d.name,
    ));
    names
}

/// Decides on one declaration once its name has been looked up and its
/// requirement read: the row to store, or the reason to turn it down.
pub fn prepare_resolved(
    dep: &CrateDependency,
    crate_id: Option<i32>,
    req: Option<VersionReq>,
    version_id: i32,
) -> (r: Result<NewDependency, ValidationError>)
    ensures
        match r {
            Ok(row) => prepare_with(
                dep@,
                crate_id,
                reading_view(req),
                version_id,
            ) == Ok::<NewDependencyView, ValidationErrorView>(row@),
            Err(reason) => prepare_with(
                dep@,
                crate_id,
                reading_view(req),
                version_id,
            ) == Err::<NewDependencyView, ValidationErrorView>(reason@),
        },
{
    let crate_id = match crate_id {
        Some(id) => id,
        None => {
            return Err(ValidationError::UnknownPackage(dep.name.clone()));
        },
    };
    let req = match req {
        Some(req) => req,
        None => {
            return Err(ValidationError::MalformedConstraint(dep.version_req.clone()));
        },
    };
    if req.is_wildcard() {
        return Err(ValidationError::DisallowedConstraint);
    }
    Ok(
        Dependency::insert(
            version_id,
            crate_id,
            &req,
            Kind::or_default(dep.kind),
            dep.optional,
            dep.default_features,
            dep.features.as_slice(),
            &dep.target,
        ),
    )
}

/// Checks one declaration against the packages that the table gave back.
pub fn prepare_one(crates: &[Crate], dep: &CrateDependency, version_id: i32) -> (r: Result<
    NewDependency,
    ValidationError,
>)
    ensures
        match r {
            Ok(row) => prepare(dep@, crates_view(crates@), version_id) == Ok::<
                NewDependencyView,
                ValidationErrorView,
            >(row@),
            Err(reason) => prepare(dep@, crates_view(crates@), version_id) == Err::<
                NewDependencyView,
                ValidationErrorView,
            >(reason@),
        },
{
    let crate_id = find_crate(crates, &dep.name);
    let req = VersionReq::parse(dep.version_req.as_str());
    prepare_resolved(dep, crate_id, req, version_id)
}

/// Turns the declared dependencies of the version `version_id` into the rows
/// to store. `crates` holds what the table gave back for the declared names;
/// a declaration resolves to the first package stored under exactly its name.
/// The batch is taken whole or not at all: the first declaration at fault
/// decides the error, and no row is handed out beside an error.
pub fn add_dependencies(crates: &[Crate], deps: &[CrateDependency], version_id: i32) -> (r: Result<
    Vec<NewDependency>,
    ValidationError,
>)
    ensures
        match r {
            Ok(rows) => rows.len() == deps.len() && prepare_all(
                declarations_view(deps@),
                crates_view(crates@),
                version_id,
            ) == Ok::<Seq<NewDependencyView>, ValidationErrorView>(news_view(rows@)),
            Err(reason) => prepare_all(declarations_view(deps@), crates_view(crates@), version_id)
                == Err::<Seq<NewDependencyView>, ValidationErrorView>(reason@),
        },
{
    let ghost views = declarations_view(deps@);
    let ghost known = crates_view(crates@);
    let mut rows: Vec<NewDependency> = Vec::new();
    let mut i: usize = 0;
    while i < deps.len()
        invariant
            i <= deps.len(),
            rows.len() == i,
            views == declarations_view(deps@),
            known == crates_view(crates@),
            forall|j: int|
                0 <= j < i ==> prepare(#[trigger] views[j], known, version_id) == Ok::<
                    NewDependencyView,
                    ValidationErrorView,
                >(rows[j]@),
        decreases deps.len() - i,
    {
        assert(views[i as int] == deps[i as int]@);
        match prepare_one(crates, &deps[i], version_id) {
            Ok(row) => {
                rows.push(row);
            },
            Err(reason) => {
                proof {
                    assert(is_first_rejected(views, known, version_id, i as int));
                    lemma_first_rejected_decides(views, known, version_id, i as int);
                }
                return Err(reason);
            },
        }
        i = i + 1;
    }
    proof {
        assert forall|k: int| !is_first_rejected(views, known, version_id, k) by {
            if 0 <= k < views.len() {
                assert(prepare(views[k], known, version_id) is Ok);
            }
        }
        assert(news_view(rows@) =~= Seq::new(
            views.len(),
            |k: int| prepare(views[k], known, version_id)->Ok_0,
        ));
    }
    Ok(rows)
}

} // verus!
