//! The provider's configuration: its public and internal base URLs, the
//! attribute catalog and the session flag, with the two catalog operations
//! that every request relies on.

use crate::attributes::Attributes;
use vstd::prelude::*;
use vstd::string::*;

verus! {

/// What the catalog operations can fail with.
#[derive(Debug)]
pub enum Error {
    /// A requested attribute name that the catalog does not hold.
    UnknownAttribute(String),
}

/// The mathematical model of an [`Error`].
pub enum ErrorView {
    UnknownAttribute(Seq<char>),
}

impl ErrorView {
    /// The text that describes the error.
    pub open spec fn message(self) -> Seq<char> {
        match self {
            ErrorView::UnknownAttribute(name) => "Unknown attribute "@ + name,
        }
    }
}

impl View for Error {
    type V = ErrorView;

    open spec fn view(&self) -> ErrorView {
        match self {
            Error::UnknownAttribute(name) => ErrorView::UnknownAttribute(name@),
        }
    }
}

impl Error {
    /// The text that describes the error: `Unknown attribute ` followed by
    /// the name.
    pub fn message(&self) -> (text: String)
        ensures
            text@ == self@.message(),
    {
        match self {
            Error::UnknownAttribute(name) => {
                let mut text = String::from_str("Unknown attribute ");
                text.append(name.as_str());
                text
            },
        }
    }
}

/// Every one of `names` is a name of the catalog.
pub open spec fn all_known(catalog: Map<Seq<char>, Seq<char>>, names: Seq<Seq<char>>) -> bool {
    forall|i: int| 0 <= i < names.len() ==> catalog.contains_key(#[trigger] names[i])
}

/// Position `i` holds a name that the catalog lacks, and no earlier position
/// does.
pub open spec fn is_first_unknown(
    catalog: Map<Seq<char>, Seq<char>>,
    names: Seq<Seq<char>>,
    i: int,
) -> bool {
    &&& 0 <= i < names.len()
    &&& !catalog.contains_key(names[i])
    &&& forall|j: int| 0 <= j < i ==> catalog.contains_key(#[trigger] names[j])
}

/// The first position of `names` whose name the catalog lacks, if there is
/// one.
pub open spec fn first_unknown(
    catalog: Map<Seq<char>, Seq<char>>,
    names: Seq<Seq<char>>,
) -> Option<int> {
    if all_known(catalog, names) {
        None
    } else {
        Some(choose|i: int| is_first_unknown(catalog, names, i))
    }
}

/// What checking `names` against the catalog yields: success when all are
/// known, else the first unknown name.
pub open spec fn verified(
    catalog: Map<Seq<char>, Seq<char>>,
    names: Seq<Seq<char>>,
) -> Result<(), ErrorView> {
    match first_unknown(catalog, names) {
        None => Ok(()),
        Some(i) => Err(ErrorView::UnknownAttribute(names[i])),
    }
}

/// What resolving `names` against the catalog yields: the catalog restricted
/// to the requested names when all are known, else the first unknown name.
pub open spec fn resolved(
    catalog: Map<Seq<char>, Seq<char>>,
    names: Seq<Seq<char>>,
) -> Result<Map<Seq<char>, Seq<char>>, ErrorView> {
    match first_unknown(catalog, names) {
        None => Ok(catalog.restrict(names.to_set())),
        Some(i) => Err(ErrorView::UnknownAttribute(names[i])),
    }
}

/// A position that satisfies `is_first_unknown` is the one that
/// `first_unknown` names.
pub proof fn lemma_first_unknown_is(
    catalog: Map<Seq<char>, Seq<char>>,
    names: Seq<Seq<char>>,
    i: int,
)
    requires
        is_first_unknown(catalog, names, i),
    ensures
        first_unknown(catalog, names) == Some(i),
{
    let k = choose|k: int| is_first_unknown(catalog, names, k);
    assert(k == i);
}

/// Below any position that holds an unknown name there is a first such
/// position.
proof fn lemma_least_unknown(catalog: Map<Seq<char>, Seq<char>>, names: Seq<Seq<char>>, i: int)
    requires
        0 <= i < names.len(),
        !catalog.contains_key(names[i]),
    ensures
        exists|k: int| 0 <= k <= i && is_first_unknown(catalog, names, k),
    decreases i,
{
    if forall|j: int| 0 <= j < i ==> catalog.contains_key(#[trigger] names[j]) {
        assert(is_first_unknown(catalog, names, i));
    } else {
        let j = choose|j: int| 0 <= j < i && !catalog.contains_key(#[trigger] names[j]);
        lemma_least_unknown(catalog, names, j);
    }
}

/// Every requested name that the catalog holds is accepted and resolved: when
/// all of `names` are names of the catalog, checking them succeeds, and
/// resolving them yields a mapping whose names are exactly the requested ones
/// and whose values are the catalog's.
pub proof fn lemma_known_names_resolve(catalog: Map<Seq<char>, Seq<char>>, names: Seq<Seq<char>>)
    requires
        names.to_set().subset_of(catalog.dom()),
    ensures
        verified(catalog, names) == Ok::<(), ErrorView>(()),
        resolved(catalog, names) matches Ok(values) && values.dom() == names.to_set() && forall|
            name: Seq<char>,
        | #[trigger]
            names.contains(name) ==> values[name] == catalog[name],
{
    assert(all_known(catalog, names));
}

/// A request that names anything outside the catalog is refused: when some
/// name of `names` is not a name of the catalog, checking and resolving both
/// fail with the same unknown attribute, which is the first requested name
/// that the catalog lacks.
pub proof fn lemma_unknown_name_rejected(
    catalog: Map<Seq<char>, Seq<char>>,
    names: Seq<Seq<char>>,
)
    requires
        !names.to_set().subset_of(catalog.dom()),
    ensures
        first_unknown(catalog, names) matches Some(i) && is_first_unknown(catalog, names, i)
            && verified(catalog, names) == Err::<(), ErrorView>(
            ErrorView::UnknownAttribute(names[i]),
        ) && resolved(catalog, names) == Err::<Map<Seq<char>, Seq<char>>, ErrorView>(
            ErrorView::UnknownAttribute(names[i]),
        ),
{
    let name = choose|name: Seq<char>| names.to_set().contains(name) && !catalog.dom().contains(name);
    let i = choose|i: int| 0 <= i < names.len() && names[i] == name;
    lemma_least_unknown(catalog, names, i);
    let k = choose|k: int| 0 <= k <= i && is_first_unknown(catalog, names, k);
    lemma_first_unknown_is(catalog, names, k);
}

/// The provider's configuration. It is built once and only read afterwards.
#[derive(Debug)]
pub struct Config {
    server_url: String,
    internal_url: String,
    attributes: Attributes,
    with_session: bool,
}

/// The mathematical model of a [`Config`].
pub struct ConfigView {
    /// The public base URL, from which links handed to browsers are built.
    pub server_url: Seq<char>,
    /// The base URL under which the relying party reaches the provider for
    /// session notifications.
    pub internal_url: Seq<char>,
    /// The attribute catalog.
    pub attributes: Map<Seq<char>, Seq<char>>,
    /// Whether assertions carry a session notification URL.
    pub with_session: bool,
}

impl View for Config {
    type V = ConfigView;

    closed spec fn view(&self) -> ConfigView {
        ConfigView {
            server_url: self.server_url@,
            internal_url: self.internal_url@,
            attributes: self.attributes@,
            with_session: self.with_session,
        }
    }
}

impl Config {
    /// A configuration with the given parts.
    pub fn new(
        server_url: String,
        internal_url: String,
        attributes: Attributes,
        with_session: bool,
    ) -> (config: Config)
        ensures
            config@ == (ConfigView {
                server_url: server_url@,
                internal_url: internal_url@,
                attributes: attributes@,
                with_session,
            }),
    {
        Config { server_url, internal_url, attributes, with_session }
    }

    /// Checks that the catalog holds every requested name; fails with the
    /// first one that it lacks.
    pub fn verify_attributes(&self, attributes: &[String]) -> (r: Result<(), Error>)
        ensures
            match r {
                Ok(_) => verified(self@.attributes, attributes.deep_view()) == Ok::<(), ErrorView>(()),
                Err(e) => verified(self@.attributes, attributes.deep_view()) == Err::<(), ErrorView>(e@),
            },
    {
        let ghost catalog = self@.attributes;
        let ghost names = attributes.deep_view();
        let mut i: usize = 0;
        while i < attributes.len()
            invariant
                i <= attributes@.len(),
                catalog == self@.attributes,
                names == attributes.deep_view(),
                forall|j: int| 0 <= j < i ==> catalog.contains_key(#[trigger] names[j]),
            decreases attributes@.len() - i,
        {
            let attribute = &attributes[i];
            if !self.attributes.contains(attribute) {
                proof {
                    lemma_first_unknown_is(catalog, names, i as int);
                }
                return Err(Error::UnknownAttribute(attribute.clone()));
            }
            i += 1;
        }
        Ok(())
    }

    /// The catalog's values for exactly the requested names; fails with the
    /// first name that the catalog lacks.
    pub fn map_attributes(&self, attributes: &[String]) -> (r: Result<Attributes, Error>)
        ensures
            match r {
                Ok(values) => resolved(self@.attributes, attributes.deep_view()) == Ok::<
                    Map<Seq<char>, Seq<char>>,
                    ErrorView,
                >(values@),
                Err(e) => resolved(self@.attributes, attributes.deep_view()) == Err::<
                    Map<Seq<char>, Seq<char>>,
                    ErrorView,
                >(e@),
            },
    {
        let ghost catalog = self@.attributes;
        let ghost names = attributes.deep_view();
        let mut result = Attributes::new();
        let mut i: usize = 0;
        while i < attributes.len()
            invariant
                i <= attributes@.len(),
                catalog == self@.attributes,
                names == attributes.deep_view(),
                forall|j: int| 0 <= j < i ==> catalog.contains_key(#[trigger] names[j]),
                result@ == catalog.restrict(names.take(i as int).to_set()),
            decreases attributes@.len() - i,
        {
            let attribute = &attributes[i];
            match self.attributes.get(attribute) {
                Some(value) => {
                    result.insert(attribute.clone(), value.clone());
                    proof {
                        lemma_restrict_take_next(catalog, names, i as int);
                    }
                },
                None => {
                    proof {
                        lemma_first_unknown_is(catalog, names, i as int);
                    }
                    return Err(Error::UnknownAttribute(attribute.clone()));
                },
            }
            i += 1;
        }
        assert(names.take(i as int) == names);
        Ok(result)
    }

    /// The public base URL.
    pub fn server_url(&self) -> (url: &str)
        ensures
            url@ == self@.server_url,
    {
        self.server_url.as_str()
    }

    /// The base URL for session notifications.
    pub fn internal_url(&self) -> (url: &str)
        ensures
            url@ == self@.internal_url,
    {
        self.internal_url.as_str()
    }

    /// Whether assertions carry a session notification URL.
    pub fn with_session(&self) -> (enabled: bool)
        ensures
            enabled == self@.with_session,
    {
        self.with_session
    }

    /// The attribute catalog.
    pub fn attributes(&self) -> (catalog: &Attributes)
        ensures
            catalog@ == self@.attributes,
    {
        &self.attributes
    }
}

/// Restricting the catalog to one more requested name that it knows adds that
/// name with the catalog's value.
proof fn lemma_restrict_take_next(
    catalog: Map<Seq<char>, Seq<char>>,
    names: Seq<Seq<char>>,
    i: int,
)
    requires
        0 <= i < names.len(),
        catalog.contains_key(names[i]),
    ensures
        catalog.restrict(names.take(i + 1).to_set()) == catalog.restrict(
            names.take(i).to_set(),
        ).insert(names[i], catalog[names[i]]),
{
    let before = names.take(i);
    let after = names.take(i + 1);
    assert(after == before.push(names[i]));
    assert forall|name: Seq<char>| after.to_set().contains(name) == (before.to_set().contains(name)
        || name == names[i]) by {
        if name == names[i] {
            assert(after[i] == name);
        }
    }
    assert(catalog.restrict(after.to_set()) =~= catalog.restrict(before.to_set()).insert(
        names[i],
        catalog[names[i]],
    ));
}

} // verus!
