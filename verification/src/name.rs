//! Domain names: ordered labels and the mark of an absolute name.

use vstd::prelude::*;
use crate::error::ResolveError;

verus! {

/// A byte with an ASCII capital letter brought to its small letter.
pub open spec fn lower(b: u8) -> u8 {
    if 0x41 <= b && b <= 0x5a {
        (b + 0x20) as u8
    } else {
        b
    }
}

/// A label with every ASCII capital letter brought to its small letter.
pub open spec fn folded(label: Seq<u8>) -> Seq<u8> {
    Seq::new(label.len(), |i: int| lower(label[i]))
}

/// The mathematical value of a domain name.
pub ghost struct NameView {
    /// The labels, the leftmost first; the root label is not among them.
    pub labels: Seq<Seq<u8>>,
    /// Whether the name ends at the root.
    pub fqdn: bool,
}

impl NameView {
    /// What a name is matched by: its labels without regard to ASCII case.
    /// Whether the name ends at the root plays no part.
    pub open spec fn key(self) -> Seq<Seq<u8>> {
        Seq::new(self.labels.len(), |i: int| folded(self.labels[i]))
    }

    /// Two names denote the same owner.
    pub open spec fn same_name(self, other: NameView) -> bool {
        self.key() == other.key()
    }

    /// The root: no label, and absolute.
    pub open spec fn root() -> NameView {
        NameView { labels: Seq::empty(), fqdn: true }
    }

    /// This name continued by `other`: the labels of both, and absolute if
    /// `other` is.
    pub open spec fn appended(self, other: NameView) -> NameView {
        NameView { labels: self.labels + other.labels, fqdn: other.fqdn }
    }

    /// The name in its absolute form: an absolute name is kept, any other is
    /// continued by the root.
    pub open spec fn qualified(self) -> NameView {
        if self.fqdn {
            self
        } else {
            self.appended(NameView::root())
        }
    }
}

/// Bringing a name into its absolute form changes nothing in a name that is
/// absolute, and done twice it gives what it gives done once.
pub proof fn lemma_qualified_is_idempotent(name: NameView)
    ensures
        name.fqdn ==> name.qualified() == name,
        name.qualified().fqdn,
        name.qualified().qualified() == name.qualified(),
{
}

/// What `Name::from_str` of the crate trust-dns makes of a text: the labels
/// and the mark of an absolute name that it reads, or nothing where it refuses
/// the text.
pub uninterp spec fn parsed_name(text: Seq<char>) -> Option<NameView>;

/// A domain name.
#[derive(Clone, Debug)]
pub struct DomainName {
    /// The labels, the leftmost first; the root label is not among them.
    pub labels: Vec<Vec<u8>>,
    /// Whether the name ends at the root.
    pub fqdn: bool,
}

impl View for DomainName {
    type V = NameView;

    open spec fn view(&self) -> NameView {
        NameView {
            labels: Seq::new(self.labels@.len(), |i: int| self.labels@[i]@),
            fqdn: self.fqdn,
        }
    }
}

impl DeepView for DomainName {
    type V = NameView;

    open spec fn deep_view(&self) -> NameView {
        self@
    }
}

/// Brings an ASCII capital letter to its small letter and keeps every other byte.
pub fn to_lower(b: u8) -> (l: u8)
    ensures
        l == lower(b),
{
    if 0x41 <= b && b <= 0x5a {
        b + 0x20
    } else {
        b
    }
}

/// Whether two labels are equal without regard to ASCII case.
pub fn same_label(a: &Vec<u8>, b: &Vec<u8>) -> (same: bool)
    ensures
        same == (folded(a@) == folded(b@)),
{
    if a.len() != b.len() {
        assert(folded(a@).len() != folded(b@).len());
        return false;
    }
    let mut i: usize = 0;
    while i < a.len()
        invariant
            a.len() == b.len(),
            i <= a.len(),
            forall|k: int| 0 <= k < i ==> lower(a@[k]) == lower(b@[k]),
        decreases a.len() - i,
    {
        if to_lower(a[i]) != to_lower(b[i]) {
            assert(folded(a@)[i as int] != folded(b@)[i as int]);
            return false;
        }
        i += 1;
    }
    assert(folded(a@) =~= folded(b@));
    true
}

impl DomainName {
    /// The root: no label, and absolute.
    pub fn root() -> (name: DomainName)
        ensures
            name@ == NameView::root(),
    {
        let name = DomainName { labels: Vec::new(), fqdn: true };
        assert(name@.labels =~= Seq::empty());
        name
    }

    /// Continues this name by `other`: the result has the labels of both, and
    /// is absolute if `other` is.
    pub fn append_name(self, other: &DomainName) -> (name: DomainName)
        ensures
            name@ == self@.appended(other@),
    {
        let ghost start = self@;
        let mut labels = self.labels;
        let mut i: usize = 0;
        while i < other.labels.len()
            invariant
                i <= other.labels.len(),
                labels@.len() == start.labels.len() + i,
                forall|k: int|
                    0 <= k < start.labels.len() ==> (#[trigger] labels@[k])@ == start.labels[k],
                forall|k: int|
                    start.labels.len() <= k < labels@.len() ==> (#[trigger] labels@[k])@
                        == other.labels@[k - start.labels.len()]@,
            decreases other.labels.len() - i,
        {
            let label = other.labels[i].clone();
            assert(label@ =~= other.labels@[i as int]@);
            labels.push(label);
            i += 1;
        }
        let name = DomainName { labels, fqdn: other.fqdn };
        assert(name@.labels =~= start.labels + other@.labels);
        name
    }

    /// Brings the name into its absolute form: an absolute name is returned as
    /// it is, any other is continued by the root.
    pub fn qualify(self) -> (name: DomainName)
        ensures
            name@ == self@.qualified(),
            name@.fqdn,
            self@.fqdn ==> name@ == self@,
    {
        if self.fqdn {
            self
        } else {
            let root = DomainName::root();
            self.append_name(&root)
        }
    }

    /// Whether two names denote the same owner: they have as many labels, and
    /// label by label these are equal without regard to ASCII case.
    pub fn same_name(&self, other: &DomainName) -> (same: bool)
        ensures
            same == self@.same_name(other@),
    {
        if self.labels.len() != other.labels.len() {
            assert(self@.key().len() != other@.key().len());
            return false;
        }
        let mut i: usize = 0;
        while i < self.labels.len()
            invariant
                self.labels.len() == other.labels.len(),
                i <= self.labels.len(),
                forall|k: int| 0 <= k < i ==> self@.key()[k] == other@.key()[k],
            decreases self.labels.len() - i,
        {
            if !same_label(&self.labels[i], &other.labels[i]) {
                assert(self@.key()[i as int] != other@.key()[i as int]);
                return false;
            }
            assert(self@.key()[i as int] == other@.key()[i as int]);
            i += 1;
        }
        assert(self@.key() =~= other@.key());
        true
    }
}

/// Reads a text as a domain name with `Name::from_str` of the crate trust-dns,
/// and hands the labels and the mark of an absolute name over as they are.
/// The contract claims that the outcome depends on the text alone: it is the
/// name that `parsed_name` stands for, or nothing where the text is refused.
#[verifier::external_body]
fn parse_name(text: &str) -> (parsed: Option<DomainName>)
    ensures
        match parsed {
            Some(name) => parsed_name(text@) == Some(name@),
            None => parsed_name(text@) is None,
        },
{
    match text.parse::<trust_dns::rr::Name>() {
        Ok(name) => Some(
            DomainName {
                labels: name.iter().map(|label| label.to_vec()).collect(),
                fqdn: name.is_fqdn(),
            },
        ),
        Err(_) => None,
    }
}

/// Reads a host name and brings it into its absolute form. A text that is no
/// domain name is refused as `InvalidName`.
pub fn normalize(host_name: &str) -> (name: Result<DomainName, ResolveError>)
    ensures
        match parsed_name(host_name@) {
            Some(read) => name matches Ok(absolute) && absolute@ == read.qualified(),
            None => name matches Err(error) && error == ResolveError::InvalidName,
        },
        name matches Ok(absolute) ==> absolute@.fqdn,
{
    match parse_name(host_name) {
        Some(read) => Ok(read.qualify()),
        None => Err(ResolveError::InvalidName),
    }
}

} // verus!
