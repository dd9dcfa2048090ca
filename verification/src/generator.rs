//! Validation and expansion of capability declarations.
//!
//! A brand type is declared together with up to three named lists — an
//! "implement" list, a "transparent" list and a "capability" list — or
//! with the standalone permissive flag.  This module checks every name
//! against the fixed catalogue and computes the marker grants the
//! declaration stands for: each recognized name maps to exactly one
//! marker, an unrecognized name is reported with the list it stood in
//! (halting that list, the other lists being independent), and the
//! permissive flag is rejected whenever any list stands beside it.

use vstd::prelude::*;
use vstd::string::StringExecFns;

verus! {

/// One grantable marker of the fixed catalogue, plus [`MarkerKind::GrantAll`],
/// the permissive aggregate that stands for every other marker at once.
#[derive(Clone, Copy, Debug, PartialEq, Eq, Structural)]
pub enum MarkerKind {
    /// `inner()` / `into_inner()` access.
    InnerAccess,
    /// Conversion from the inner value (`From`).
    ConstructFromInner,
    /// `map` / `try_map` over the inner value.
    ValueMap,
    /// `cloned()` from a wrapper of a reference to an owning wrapper.
    ReferenceClone,
    /// `as_ref()` from `&TaggedType<V, T>` to `TaggedType<&V, T>`.
    AsReference,
    /// Dereferencing to the inner value.
    DerefToInner,
    /// Default construction.
    DefaultConstruct,
    /// Cloning.
    CloneValue,
    /// Copy semantics.
    CopyValue,
    /// Partial equality.
    PartialEquality,
    /// Strict equality.
    Equality,
    /// Partial ordering.
    PartialOrdering,
    /// Total ordering.
    TotalOrdering,
    /// Hashing.
    Hashing,
    /// Addition.
    Addition,
    /// Subtraction.
    Subtraction,
    /// Multiplication.
    Multiplication,
    /// Division.
    Division,
    /// Pass-through display formatting.
    DisplayFormat,
    /// Pass-through debug formatting.
    DebugFormat,
    /// Pass-through parsing from text.
    ParseFromText,
    /// Pass-through serialization.
    Serialization,
    /// Pass-through deserialization.
    Deserialization,
    /// The permissive aggregate: implies every marker of the catalogue.
    GrantAll,
}

/// The declaration list a name stood in.
#[derive(Clone, Copy, Debug, PartialEq, Eq, Structural)]
pub enum ListKind {
    /// The "capability" list (out-of-band capabilities).
    Capability,
    /// The "implement" list (individual behaviours).
    Implement,
    /// The "transparent" list (pass-through behaviours).
    Transparent,
}

/// The marker a name of the "capability" list stands for, or `None`
/// where the catalogue knows no such capability.
pub open spec fn spec_capability_marker(name: Seq<char>) -> Option<MarkerKind> {
    if name == "inner_access"@ {
        Some(MarkerKind::InnerAccess)
    } else if name == "from_inner"@ {
        Some(MarkerKind::ConstructFromInner)
    } else if name == "value_map"@ {
        Some(MarkerKind::ValueMap)
    } else if name == "cloned"@ {
        Some(MarkerKind::ReferenceClone)
    } else if name == "as_ref"@ {
        Some(MarkerKind::AsReference)
    } else {
        None
    }
}

/// The marker a name of the "implement" list stands for, or `None`
/// where the catalogue knows no such behaviour.
pub open spec fn spec_implement_marker(name: Seq<char>) -> Option<MarkerKind> {
    if name == "Default"@ {
        Some(MarkerKind::DefaultConstruct)
    } else if name == "Clone"@ {
        Some(MarkerKind::CloneValue)
    } else if name == "Copy"@ {
        Some(MarkerKind::CopyValue)
    } else if name == "PartialEq"@ {
        Some(MarkerKind::PartialEquality)
    } else if name == "Eq"@ {
        Some(MarkerKind::Equality)
    } else if name == "PartialOrd"@ {
        Some(MarkerKind::PartialOrdering)
    } else if name == "Ord"@ {
        Some(MarkerKind::TotalOrdering)
    } else if name == "Hash"@ {
        Some(MarkerKind::Hashing)
    } else if name == "Deref"@ {
        Some(MarkerKind::DerefToInner)
    } else if name == "Add"@ {
        Some(MarkerKind::Addition)
    } else if name == "Sub"@ {
        Some(MarkerKind::Subtraction)
    } else if name == "Mul"@ {
        Some(MarkerKind::Multiplication)
    } else if name == "Div"@ {
        Some(MarkerKind::Division)
    } else {
        None
    }
}

/// The marker a name of the "transparent" list stands for, or `None`
/// where the catalogue knows no such pass-through behaviour.
pub open spec fn spec_transparent_marker(name: Seq<char>) -> Option<MarkerKind> {
    if name == "Display"@ {
        Some(MarkerKind::DisplayFormat)
    } else if name == "Debug"@ {
        Some(MarkerKind::DebugFormat)
    } else if name == "FromStr"@ {
        Some(MarkerKind::ParseFromText)
    } else if name == "Serialize"@ {
        Some(MarkerKind::Serialization)
    } else if name == "Deserialize"@ {
        Some(MarkerKind::Deserialization)
    } else {
        None
    }
}

/// The marker a name stands for in the given list.
pub open spec fn spec_marker_in(list: ListKind, name: Seq<char>) -> Option<MarkerKind> {
    match list {
        ListKind::Capability => spec_capability_marker(name),
        ListKind::Implement => spec_implement_marker(name),
        ListKind::Transparent => spec_transparent_marker(name),
    }
}

/// Relies on `str`'s `PartialEq`: two string slices are equal exactly
/// when they hold the same characters.
#[verifier::external_body]
fn str_eq(a: &str, b: &str) -> (r: bool)
    ensures
        r == (a@ == b@),
{
    a == b
}

/// Look a name of the "capability" list up in the catalogue.
pub fn capability_marker(name: &str) -> (r: Option<MarkerKind>)
    ensures
        r == spec_capability_marker(name@),
{
    if str_eq(name, "inner_access") {
        Some(MarkerKind::InnerAccess)
    } else if str_eq(name, "from_inner") {
        Some(MarkerKind::ConstructFromInner)
    } else if str_eq(name, "value_map") {
        Some(MarkerKind::ValueMap)
    } else if str_eq(name, "cloned") {
        Some(MarkerKind::ReferenceClone)
    } else if str_eq(name, "as_ref") {
        Some(MarkerKind::AsReference)
    } else {
        None
    }
}

/// Look a name of the "implement" list up in the catalogue.
pub fn implement_marker(name: &str) -> (r: Option<MarkerKind>)
    ensures
        r == spec_implement_marker(name@),
{
    if str_eq(name, "Default") {
        Some(MarkerKind::DefaultConstruct)
    } else if str_eq(name, "Clone") {
        Some(MarkerKind::CloneValue)
    } else if str_eq(name, "Copy") {
        Some(MarkerKind::CopyValue)
    } else if str_eq(name, "PartialEq") {
        Some(MarkerKind::PartialEquality)
    } else if str_eq(name, "Eq") {
        Some(MarkerKind::Equality)
    } else if str_eq(name, "PartialOrd") {
        Some(MarkerKind::PartialOrdering)
    } else if str_eq(name, "Ord") {
        Some(MarkerKind::TotalOrdering)
    } else if str_eq(name, "Hash") {
        Some(MarkerKind::Hashing)
    } else if str_eq(name, "Deref") {
        Some(MarkerKind::DerefToInner)
    } else if str_eq(name, "Add") {
        Some(MarkerKind::Addition)
    } else if str_eq(name, "Sub") {
        Some(MarkerKind::Subtraction)
    } else if str_eq(name, "Mul") {
        Some(MarkerKind::Multiplication)
    } else if str_eq(name, "Div") {
        Some(MarkerKind::Division)
    } else {
        None
    }
}

/// Look a name of the "transparent" list up in the catalogue.
pub fn transparent_marker(name: &str) -> (r: Option<MarkerKind>)
    ensures
        r == spec_transparent_marker(name@),
{
    if str_eq(name, "Display") {
        Some(MarkerKind::DisplayFormat)
    } else if str_eq(name, "Debug") {
        Some(MarkerKind::DebugFormat)
    } else if str_eq(name, "FromStr") {
        Some(MarkerKind::ParseFromText)
    } else if str_eq(name, "Serialize") {
        Some(MarkerKind::Serialization)
    } else if str_eq(name, "Deserialize") {
        Some(MarkerKind::Deserialization)
    } else {
        None
    }
}

/// Look a name up in the catalogue, in the given list.
pub fn marker_in(list: ListKind, name: &str) -> (r: Option<MarkerKind>)
    ensures
        r == spec_marker_in(list, name@),
{
    match list {
        ListKind::Capability => capability_marker(name),
        ListKind::Implement => implement_marker(name),
        ListKind::Transparent => transparent_marker(name),
    }
}

/// The grants one list yields: each recognized name maps to its marker,
/// in declaration order; the first unrecognized name halts the list, so
/// nothing after it is granted.
pub open spec fn spec_list_grants(list: ListKind, names: Seq<Seq<char>>) -> Seq<MarkerKind>
    decreases names.len(),
{
    if names.len() == 0 {
        Seq::empty()
    } else {
        match spec_marker_in(list, names[0]) {
            Some(m) => seq![m] + spec_list_grants(list, names.drop_first()),
            None => Seq::empty(),
        }
    }
}

/// The first unrecognized name of one list, if any.
pub open spec fn spec_list_error(list: ListKind, names: Seq<Seq<char>>) -> Option<Seq<char>>
    decreases names.len(),
{
    if names.len() == 0 {
        None
    } else {
        match spec_marker_in(list, names[0]) {
            Some(m) => spec_list_error(list, names.drop_first()),
            None => Some(names[0]),
        }
    }
}

/// An unrecognized name, together with the list it stood in.
pub struct UnknownName {
    /// The list the name stood in.
    pub list: ListKind,
    /// The name the catalogue does not know.
    pub name: String,
}

/// Walk one list from position `from` on: push a grant for each
/// recognized name, and halt the list at the first unrecognized one,
/// which is reported with the list it stood in.
fn expand_list(list: ListKind, names: &Vec<String>, from: usize, grants: &mut Vec<MarkerKind>) -> (unknown: Option<
    UnknownName,
>)
    requires
        from <= names@.len(),
    ensures
        final(grants)@ == old(grants)@ + spec_list_grants(list, names.deep_view().skip(from as int)),
        match unknown {
            Some(u) => {
                &&& spec_list_error(list, names.deep_view().skip(from as int)) == Some(u.name@)
                &&& u.list == list
            },
            None => spec_list_error(list, names.deep_view().skip(from as int)) is None,
        },
    decreases names@.len() - from,
{
    if from == names.len() {
        proof {
            assert(names.deep_view().skip(from as int) =~= Seq::<Seq<char>>::empty());
            assert(grants@ =~= grants@ + Seq::<MarkerKind>::empty());
        }
        None
    } else {
        let name = &names[from];
        proof {
            assert(names.deep_view().skip(from as int).drop_first() =~= names.deep_view().skip(
                from as int + 1,
            ));
            assert(names.deep_view().skip(from as int)[0] == name@);
        }
        match marker_in(list, name.as_str()) {
            Some(m) => {
                grants.push(m);
                let unknown = expand_list(list, names, from + 1, grants);
                proof {
                    assert(grants@ =~= old(grants)@ + spec_list_grants(
                        list,
                        names.deep_view().skip(from as int),
                    ));
                }
                unknown
            },
            None => {
                proof {
                    assert(grants@ =~= grants@ + Seq::<MarkerKind>::empty());
                }
                Some(UnknownName { list, name: name.clone() })
            },
        }
    }
}

/// A capability declaration attached to one brand type: up to three
/// named lists, each present or absent as a whole, and the standalone
/// permissive flag.
pub struct TagDeclaration {
    /// The permissive flag, which must be the only declaration present.
    pub permissive: bool,
    /// The "implement" list, if declared.
    pub implement: Option<Vec<String>>,
    /// The "transparent" list, if declared.
    pub transparent: Option<Vec<String>>,
    /// The "capability" list, if declared.
    pub capability: Option<Vec<String>>,
}

/// The names of one list, as sequences of characters; an absent list
/// contributes no names.
pub open spec fn spec_names(names: &Option<Vec<String>>) -> Seq<Seq<char>> {
    match names {
        Some(v) => v.deep_view(),
        None => Seq::empty(),
    }
}

/// The report of one list: its first unrecognized name, if any, with
/// the list it stood in.
pub open spec fn spec_list_unknowns(list: ListKind, names: Seq<Seq<char>>) -> Seq<
    (ListKind, Seq<char>),
> {
    match spec_list_error(list, names) {
        Some(n) => seq![(list, n)],
        None => Seq::empty(),
    }
}

impl TagDeclaration {
    /// The permissive flag stands beside another declaration block:
    /// the declaration is rejected as a whole.
    pub open spec fn spec_conflicting(&self) -> bool {
        self.permissive && (self.implement is Some || self.transparent is Some
            || self.capability is Some)
    }

    /// The grant statements this declaration stands for, in declaration
    /// order: nothing for a conflicting declaration, the single
    /// aggregate grant for a sole permissive flag, and otherwise the
    /// grants of the capability, implement and transparent lists in
    /// turn, each list halted at its first unrecognized name.
    pub open spec fn spec_grants(&self) -> Seq<MarkerKind> {
        if self.spec_conflicting() {
            Seq::empty()
        } else if self.permissive {
            seq![MarkerKind::GrantAll]
        } else {
            spec_list_grants(ListKind::Capability, spec_names(&self.capability)) + spec_list_grants(
                ListKind::Implement,
                spec_names(&self.implement),
            ) + spec_list_grants(ListKind::Transparent, spec_names(&self.transparent))
        }
    }

    /// The unrecognized names this declaration is rejected for: at most
    /// one per list, in the order the lists are processed.
    pub open spec fn spec_unknowns(&self) -> Seq<(ListKind, Seq<char>)> {
        if self.permissive {
            Seq::empty()
        } else {
            spec_list_unknowns(ListKind::Capability, spec_names(&self.capability))
                + spec_list_unknowns(ListKind::Implement, spec_names(&self.implement))
                + spec_list_unknowns(ListKind::Transparent, spec_names(&self.transparent))
        }
    }
}

/// What a declaration expands to.
pub enum Expansion {
    /// The permissive flag stood beside another declaration block:
    /// nothing is granted for this brand type.
    PermissiveConflict,
    /// The marker grants, in declaration order, and the unrecognized
    /// names, at most one per list.
    Grants {
        /// The markers granted to the brand type.
        grants: Vec<MarkerKind>,
        /// The names rejected, each with the list it stood in.
        unknown: Vec<UnknownName>,
    },
}

impl TagDeclaration {
    /// Validate this declaration against the catalogue and compute the
    /// grants it stands for.  A conflicting declaration (permissive
    /// beside any list) yields no grant at all; otherwise each
    /// recognized name yields its grant, and each list reports its
    /// first unrecognized name, the lists being independent of one
    /// another.
    pub fn expand(&self) -> (r: Expansion)
        ensures
            self.spec_conflicting() <==> r is PermissiveConflict,
            r matches Expansion::Grants { grants, unknown } ==> {
                &&& grants@ == self.spec_grants()
                &&& unknown@.len() == self.spec_unknowns().len()
                &&& forall|i: int|
                    0 <= i < unknown@.len() ==> (#[trigger] unknown@[i]).list
                        == self.spec_unknowns()[i].0 && unknown@[i].name@
                        == self.spec_unknowns()[i].1
            },
    {
        if self.permissive {
            if self.implement.is_some() || self.transparent.is_some()
                || self.capability.is_some() {
                Expansion::PermissiveConflict
            } else {
                Expansion::Grants { grants: vec![MarkerKind::GrantAll], unknown: Vec::new() }
            }
        } else {
            let mut grants: Vec<MarkerKind> = Vec::new();
            let mut unknown: Vec<UnknownName> = Vec::new();
            if let Some(names) = &self.capability {
                proof {
                    assert(names.deep_view().skip(0) =~= names.deep_view());
                }
                if let Some(u) = expand_list(ListKind::Capability, names, 0, &mut grants) {
                    unknown.push(u);
                }
            }
            if let Some(names) = &self.implement {
                proof {
                    assert(names.deep_view().skip(0) =~= names.deep_view());
                }
                if let Some(u) = expand_list(ListKind::Implement, names, 0, &mut grants) {
                    unknown.push(u);
                }
            }
            if let Some(names) = &self.transparent {
                proof {
                    assert(names.deep_view().skip(0) =~= names.deep_view());
                }
                if let Some(u) = expand_list(ListKind::Transparent, names, 0, &mut grants) {
                    unknown.push(u);
                }
            }
            proof {
                assert(grants@ =~= self.spec_grants());
            }
            Expansion::Grants { grants, unknown }
        }
    }
}

/// The declaration-site message for one unrecognized name.
pub open spec fn spec_unknown_message(list: ListKind, name: Seq<char>) -> Seq<char> {
    match list {
        ListKind::Capability => "Don't know capability: "@ + name,
        ListKind::Implement => "Don't know how to implement: "@ + name,
        ListKind::Transparent => "Don't know how to make "@ + name + " transparent"@,
    }
}

/// The declaration-site message for a permissive flag that stands
/// beside another declaration block.
pub open spec fn spec_conflict_message() -> Seq<char> {
    "permissive must be the only attribute in derive"@
}

impl UnknownName {
    /// The error text: it names the unrecognized identifier and the
    /// declaration list it was found under.
    pub fn message(&self) -> (r: String)
        ensures
            r@ == spec_unknown_message(self.list, self.name@),
    {
        match self.list {
            ListKind::Capability => String::from_str("Don't know capability: ").concat(
                self.name.as_str(),
            ),
            ListKind::Implement => String::from_str("Don't know how to implement: ").concat(
                self.name.as_str(),
            ),
            ListKind::Transparent => String::from_str("Don't know how to make ").concat(
                self.name.as_str(),
            ).concat(" transparent"),
        }
    }
}

/// The error text for a permissive flag combined with another
/// declaration block.
pub fn conflict_message() -> (r: String)
    ensures
        r@ == spec_conflict_message(),
{
    String::from_str("permissive must be the only attribute in derive")
}

/// The name of the marker trait one grant stands for.
pub open spec fn spec_marker_trait_name(m: MarkerKind) -> Seq<char> {
    match m {
        MarkerKind::InnerAccess => "InnerAccess"@,
        MarkerKind::ConstructFromInner => "FromInner"@,
        MarkerKind::ValueMap => "ValueMap"@,
        MarkerKind::ReferenceClone => "Cloned"@,
        MarkerKind::AsReference => "AsReference"@,
        MarkerKind::DerefToInner => "ImplementDeref"@,
        MarkerKind::DefaultConstruct => "ImplementDefault"@,
        MarkerKind::CloneValue => "ImplementClone"@,
        MarkerKind::CopyValue => "ImplementCopy"@,
        MarkerKind::PartialEquality => "ImplementPartialEq"@,
        MarkerKind::Equality => "ImplementEq"@,
        MarkerKind::PartialOrdering => "ImplementPartialOrd"@,
        MarkerKind::TotalOrdering => "ImplementOrd"@,
        MarkerKind::Hashing => "ImplementHash"@,
        MarkerKind::Addition => "ImplementAdd"@,
        MarkerKind::Subtraction => "ImplementSub"@,
        MarkerKind::Multiplication => "ImplementMul"@,
        MarkerKind::Division => "ImplementDiv"@,
        MarkerKind::DisplayFormat => "TransparentDisplay"@,
        MarkerKind::DebugFormat => "TransparentDebug"@,
        MarkerKind::ParseFromText => "TransparentFromStr"@,
        MarkerKind::Serialization => "TransparentSerialize"@,
        MarkerKind::Deserialization => "TransparentDeserialize"@,
        MarkerKind::GrantAll => "Permissive"@,
    }
}

impl MarkerKind {
    /// The name of the marker trait of [`crate::traits`] this grant
    /// stands for, as a grant statement names it.
    pub fn trait_name(&self) -> (r: &'static str)
        ensures
            r@ == spec_marker_trait_name(*self),
    {
        match self {
            MarkerKind::InnerAccess => "InnerAccess",
            MarkerKind::ConstructFromInner => "FromInner",
            MarkerKind::ValueMap => "ValueMap",
            MarkerKind::ReferenceClone => "Cloned",
            MarkerKind::AsReference => "AsReference",
            MarkerKind::DerefToInner => "ImplementDeref",
            MarkerKind::DefaultConstruct => "ImplementDefault",
            MarkerKind::CloneValue => "ImplementClone",
            MarkerKind::CopyValue => "ImplementCopy",
            MarkerKind::PartialEquality => "ImplementPartialEq",
            MarkerKind::Equality => "ImplementEq",
            MarkerKind::PartialOrdering => "ImplementPartialOrd",
            MarkerKind::TotalOrdering => "ImplementOrd",
            MarkerKind::Hashing => "ImplementHash",
            MarkerKind::Addition => "ImplementAdd",
            MarkerKind::Subtraction => "ImplementSub",
            MarkerKind::Multiplication => "ImplementMul",
            MarkerKind::Division => "ImplementDiv",
            MarkerKind::DisplayFormat => "TransparentDisplay",
            MarkerKind::DebugFormat => "TransparentDebug",
            MarkerKind::ParseFromText => "TransparentFromStr",
            MarkerKind::Serialization => "TransparentSerialize",
            MarkerKind::Deserialization => "TransparentDeserialize",
            MarkerKind::GrantAll => "Permissive",
        }
    }
}

/// The fixed catalogue: every individual grantable marker, and nothing
/// else — in particular not the permissive aggregate itself.
pub open spec fn spec_catalogue() -> Set<MarkerKind> {
    set![
        MarkerKind::InnerAccess,
        MarkerKind::ConstructFromInner,
        MarkerKind::ValueMap,
        MarkerKind::ReferenceClone,
        MarkerKind::AsReference,
        MarkerKind::DerefToInner,
        MarkerKind::DefaultConstruct,
        MarkerKind::CloneValue,
        MarkerKind::CopyValue,
        MarkerKind::PartialEquality,
        MarkerKind::Equality,
        MarkerKind::PartialOrdering,
        MarkerKind::TotalOrdering,
        MarkerKind::Hashing,
        MarkerKind::Addition,
        MarkerKind::Subtraction,
        MarkerKind::Multiplication,
        MarkerKind::Division,
        MarkerKind::DisplayFormat,
        MarkerKind::DebugFormat,
        MarkerKind::ParseFromText,
        MarkerKind::Serialization,
        MarkerKind::Deserialization,
    ]
}

/// The markers one grant stands for: itself, or the whole catalogue for
/// the permissive aggregate.
pub open spec fn spec_implied_markers(g: MarkerKind) -> Set<MarkerKind> {
    if g == MarkerKind::GrantAll {
        spec_catalogue()
    } else {
        set![g]
    }
}

/// The set of markers a sequence of grants stands for.  Emission is
/// set-based: order is irrelevant here and duplicates collapse.
pub open spec fn spec_granted_set(grants: Seq<MarkerKind>) -> Set<MarkerKind>
    decreases grants.len(),
{
    if grants.len() == 0 {
        Set::empty()
    } else {
        spec_implied_markers(grants[0]) + spec_granted_set(grants.drop_first())
    }
}

/// Whatever one grant of a sequence stands for is in the granted set.
pub proof fn lemma_granted_set_contains(grants: Seq<MarkerKind>, i: int)
    requires
        0 <= i < grants.len(),
    ensures
        spec_implied_markers(grants[i]).subset_of(spec_granted_set(grants)),
    decreases grants.len(),
{
    if i > 0 {
        lemma_granted_set_contains(grants.drop_first(), i - 1);
    }
}

/// A granted set never leaves the catalogue: the permissive aggregate
/// introduces no marker beyond it, and every individual marker is in it.
pub proof fn lemma_granted_set_in_catalogue(grants: Seq<MarkerKind>)
    ensures
        spec_granted_set(grants).subset_of(spec_catalogue()),
    decreases grants.len(),
{
    if grants.len() > 0 {
        lemma_granted_set_in_catalogue(grants.drop_first());
    }
}

/// Appending one grant adds exactly what it stands for.
pub proof fn lemma_granted_set_push(grants: Seq<MarkerKind>, g: MarkerKind)
    ensures
        spec_granted_set(grants.push(g)) =~= spec_granted_set(grants) + spec_implied_markers(g),
    decreases grants.len(),
{
    if grants.len() == 0 {
        assert(grants.push(g)[0] == g);
        assert(grants.push(g).drop_first() =~= Seq::<MarkerKind>::empty());
        assert(spec_granted_set(Seq::<MarkerKind>::empty()) =~= Set::<MarkerKind>::empty());
        assert(spec_granted_set(grants) =~= Set::<MarkerKind>::empty());
    } else {
        assert(grants.push(g)[0] == grants[0]);
        assert(grants.push(g).drop_first() =~= grants.drop_first().push(g));
        lemma_granted_set_push(grants.drop_first(), g);
    }
}

/// Duplicate requests are harmless no-ops: repeating a grant that is
/// already present leaves the granted set unchanged.
pub proof fn lemma_duplicate_grant_harmless(grants: Seq<MarkerKind>, m: MarkerKind)
    requires
        grants.contains(m),
    ensures
        spec_granted_set(grants.push(m)) =~= spec_granted_set(grants),
{
    lemma_granted_set_push(grants, m);
    let i = choose|i: int| 0 <= i < grants.len() && grants[i] == m;
    lemma_granted_set_contains(grants, i);
}

/// An unrecognized name is reported with the list it stood in, and
/// halts that list: where position `i` holds the first name outside the
/// catalogue, the list grants exactly the `i` markers before it and its
/// error names position `i`.
pub proof fn lemma_unknown_name_halts_list(list: ListKind, names: Seq<Seq<char>>, i: int)
    requires
        0 <= i < names.len(),
        spec_marker_in(list, names[i]) is None,
        forall|j: int| 0 <= j < i ==> spec_marker_in(list, #[trigger] names[j]) is Some,
    ensures
        spec_list_error(list, names) == Some(names[i]),
        spec_list_grants(list, names).len() == i,
    decreases i,
{
    if i > 0 {
        assert forall|j: int| 0 <= j < i - 1 implies spec_marker_in(
            list,
            #[trigger] names.drop_first()[j],
        ) is Some by {
            assert(names.drop_first()[j] == names[j + 1]);
        }
        assert(names.drop_first()[i - 1] == names[i]);
        lemma_unknown_name_halts_list(list, names.drop_first(), i - 1);
    }
}

/// A list whose names all stand in the catalogue is granted in full:
/// no error, and one marker per name, in declaration order.
pub proof fn lemma_valid_list_granted_in_full(list: ListKind, names: Seq<Seq<char>>)
    requires
        forall|j: int| 0 <= j < names.len() ==> spec_marker_in(list, #[trigger] names[j]) is Some,
    ensures
        spec_list_error(list, names) is None,
        spec_list_grants(list, names).len() == names.len(),
        forall|j: int|
            0 <= j < names.len() ==> Some(spec_list_grants(list, names)[j]) == spec_marker_in(
                list,
                names[j],
            ),
    decreases names.len(),
{
    if names.len() > 0 {
        assert forall|j: int| 0 <= j < names.drop_first().len() implies spec_marker_in(
            list,
            #[trigger] names.drop_first()[j],
        ) is Some by {
            assert(names.drop_first()[j] == names[j + 1]);
        }
        lemma_valid_list_granted_in_full(list, names.drop_first());
        assert forall|j: int| 0 <= j < names.len() implies Some(
            spec_list_grants(list, names)[j],
        ) == spec_marker_in(list, names[j]) by {
            if j > 0 {
                assert(spec_list_grants(list, names)[j] == spec_list_grants(
                    list,
                    names.drop_first(),
                )[j - 1]);
                assert(names.drop_first()[j - 1] == names[j]);
            }
        }
    }
}

/// The names of one list of a declaration.
pub open spec fn spec_list_names(d: TagDeclaration, list: ListKind) -> Seq<Seq<char>> {
    match list {
        ListKind::Capability => spec_names(&d.capability),
        ListKind::Implement => spec_names(&d.implement),
        ListKind::Transparent => spec_names(&d.transparent),
    }
}

/// A declaration that names anything outside the catalogue is rejected
/// with that very identifier and the list it stood in: where position
/// `i` holds the first unrecognized name of one list, the declaration's
/// report holds that name under that list.
pub proof fn lemma_unknown_name_rejected(d: TagDeclaration, list: ListKind, i: int)
    requires
        !d.permissive,
        0 <= i < spec_list_names(d, list).len(),
        spec_marker_in(list, spec_list_names(d, list)[i]) is None,
        forall|j: int|
            0 <= j < i ==> spec_marker_in(list, #[trigger] spec_list_names(d, list)[j]) is Some,
    ensures
        d.spec_unknowns().contains((list, spec_list_names(d, list)[i])),
{
    lemma_unknown_name_halts_list(list, spec_list_names(d, list), i);
    let capu = spec_list_unknowns(ListKind::Capability, spec_names(&d.capability));
    let implu = spec_list_unknowns(ListKind::Implement, spec_names(&d.implement));
    let tranu = spec_list_unknowns(ListKind::Transparent, spec_names(&d.transparent));
    let x = (list, spec_list_names(d, list)[i]);
    match list {
        ListKind::Capability => {
            assert(d.spec_unknowns()[0] == x);
        },
        ListKind::Implement => {
            assert(d.spec_unknowns()[capu.len() as int] == x);
        },
        ListKind::Transparent => {
            assert(d.spec_unknowns()[capu.len() + implu.len() as int] == x);
        },
    }
}

/// A declaration without the permissive flag whose names all stand in
/// the catalogue is granted in full: nothing is rejected, and each list
/// contributes one marker per name.
pub proof fn lemma_valid_declaration_granted_in_full(d: TagDeclaration)
    requires
        !d.permissive,
        forall|list: ListKind, j: int|
            0 <= j < spec_list_names(d, list).len() ==> spec_marker_in(
                list,
                #[trigger] spec_list_names(d, list)[j],
            ) is Some,
    ensures
        d.spec_unknowns() =~= Seq::<(ListKind, Seq<char>)>::empty(),
        d.spec_grants().len() == spec_list_names(d, ListKind::Capability).len() + spec_list_names(
            d,
            ListKind::Implement,
        ).len() + spec_list_names(d, ListKind::Transparent).len(),
{
    assert forall|j: int| 0 <= j < spec_names(&d.capability).len() implies spec_marker_in(
        ListKind::Capability,
        #[trigger] spec_names(&d.capability)[j],
    ) is Some by {
        assert(spec_list_names(d, ListKind::Capability)[j] == spec_names(&d.capability)[j]);
    }
    assert forall|j: int| 0 <= j < spec_names(&d.implement).len() implies spec_marker_in(
        ListKind::Implement,
        #[trigger] spec_names(&d.implement)[j],
    ) is Some by {
        assert(spec_list_names(d, ListKind::Implement)[j] == spec_names(&d.implement)[j]);
    }
    assert forall|j: int| 0 <= j < spec_names(&d.transparent).len() implies spec_marker_in(
        ListKind::Transparent,
        #[trigger] spec_names(&d.transparent)[j],
    ) is Some by {
        assert(spec_list_names(d, ListKind::Transparent)[j] == spec_names(&d.transparent)[j]);
    }
    lemma_valid_list_granted_in_full(ListKind::Capability, spec_names(&d.capability));
    lemma_valid_list_granted_in_full(ListKind::Implement, spec_names(&d.implement));
    lemma_valid_list_granted_in_full(ListKind::Transparent, spec_names(&d.transparent));
}

/// The permissive aggregate and an explicit grant of every individual
/// marker stand for the same thing: the whole catalogue, behaviour for
/// behaviour.
pub proof fn lemma_permissive_equals_every_grant(permissive_only: TagDeclaration, explicit: TagDeclaration)
    requires
        permissive_only.permissive,
        !permissive_only.spec_conflicting(),
        !explicit.permissive,
        forall|m: MarkerKind|
            spec_catalogue().contains(m) ==> #[trigger] explicit.spec_grants().contains(m),
    ensures
        spec_granted_set(permissive_only.spec_grants()) =~= spec_catalogue(),
        spec_granted_set(explicit.spec_grants()) =~= spec_catalogue(),
{
    assert(permissive_only.spec_grants() == seq![MarkerKind::GrantAll]);
    assert(seq![MarkerKind::GrantAll].drop_first() =~= Seq::<MarkerKind>::empty());
    assert(spec_granted_set(Seq::<MarkerKind>::empty()) =~= Set::<MarkerKind>::empty());
    assert(seq![MarkerKind::GrantAll][0] == MarkerKind::GrantAll);
    assert(spec_granted_set(permissive_only.spec_grants()) =~= spec_catalogue());
    lemma_granted_set_in_catalogue(explicit.spec_grants());
    assert forall|m: MarkerKind| spec_catalogue().contains(m) implies spec_granted_set(
        explicit.spec_grants(),
    ).contains(m) by {
        let grants = explicit.spec_grants();
        assert(grants.contains(m));
        let i = choose|i: int| 0 <= i < grants.len() && grants[i] == m;
        lemma_granted_set_contains(grants, i);
        assert(spec_implied_markers(grants[i]).contains(m));
    }
}

} // verus!
