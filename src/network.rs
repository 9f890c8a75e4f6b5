//! The networks a deployment can target.
use vstd::prelude::*;

verus! {

/// A supported network, selected by its upper-case name.
#[derive(Clone, Copy, Debug, PartialEq, Eq)]
pub enum Network {
    Uni6,
    Juno1,
    Testing,
    Pisco1,
    Phoenix1,
    LocalTerra,
    Injective888,
    Constantine1,
    Baryon1,
    Injective1,
    Harpoon4,
    Osmo4,
    LocalOsmo,
}

/// Compares two strings character by character.
pub fn same_text(a: &str, b: &str) -> (r: bool)
    ensures
        r == (a@ == b@),
{
    let n = a.unicode_len();
    if n != b.unicode_len() {
        return false;
    }
    let mut i: usize = 0;
    while i < n
        invariant
            n == a@.len(),
            n == b@.len(),
            0 <= i <= n,
            forall|j: int| 0 <= j < i ==> a@[j] == b@[j],
        decreases n - i,
    {
        if a.get_char(i) != b.get_char(i) {
            return false;
        }
        i = i + 1;
    }
    assert(a@ =~= b@);
    true
}

impl Network {
    /// The name under which the network is selected.
    pub open spec fn name_spec(self) -> Seq<char> {
        match self {
            Network::Uni6 => "UNI_6"@,
            Network::Juno1 => "JUNO_1"@,
            Network::Testing => "TESTING"@,
            Network::Pisco1 => "PISCO_1"@,
            Network::Phoenix1 => "PHOENIX_1"@,
            Network::LocalTerra => "LOCAL_TERRA"@,
            Network::Injective888 => "INJECTIVE_888"@,
            Network::Constantine1 => "CONSTANTINE_1"@,
            Network::Baryon1 => "BARYON_1"@,
            Network::Injective1 => "INJECTIVE_1"@,
            Network::Harpoon4 => "HARPOON_4"@,
            Network::Osmo4 => "OSMO_4"@,
            Network::LocalOsmo => "LOCAL_OSMO"@,
        }
    }

    /// The lower-case key under which the chain client knows the network.
    pub open spec fn key_spec(self) -> Seq<char> {
        match self {
            Network::Uni6 => "uni_6"@,
            Network::Juno1 => "juno_1"@,
            Network::Testing => "testing"@,
            Network::Pisco1 => "pisco_1"@,
            Network::Phoenix1 => "phoenix_1"@,
            Network::LocalTerra => "local_terra"@,
            Network::Injective888 => "injective_888"@,
            Network::Constantine1 => "constantine_1"@,
            Network::Baryon1 => "baryon_1"@,
            Network::Injective1 => "injective_1"@,
            Network::Harpoon4 => "harpoon_4"@,
            Network::Osmo4 => "osmo_4"@,
            Network::LocalOsmo => "local_osmo"@,
        }
    }

    /// The name under which the network is selected.
    pub fn name(&self) -> (r: &'static str)
        ensures
            r@ == self.name_spec(),
    {
        match self {
            Network::Uni6 => "UNI_6",
            Network::Juno1 => "JUNO_1",
            Network::Testing => "TESTING",
            Network::Pisco1 => "PISCO_1",
            Network::Phoenix1 => "PHOENIX_1",
            Network::LocalTerra => "LOCAL_TERRA",
            Network::Injective888 => "INJECTIVE_888",
            Network::Constantine1 => "CONSTANTINE_1",
            Network::Baryon1 => "BARYON_1",
            Network::Injective1 => "INJECTIVE_1",
            Network::Harpoon4 => "HARPOON_4",
            Network::Osmo4 => "OSMO_4",
            Network::LocalOsmo => "LOCAL_OSMO",
        }
    }

    /// The lower-case key under which the chain client knows the network.
    pub fn key(&self) -> (r: &'static str)
        ensures
            r@ == self.key_spec(),
    {
        match self {
            Network::Uni6 => "uni_6",
            Network::Juno1 => "juno_1",
            Network::Testing => "testing",
            Network::Pisco1 => "pisco_1",
            Network::Phoenix1 => "phoenix_1",
            Network::LocalTerra => "local_terra",
            Network::Injective888 => "injective_888",
            Network::Constantine1 => "constantine_1",
            Network::Baryon1 => "baryon_1",
            Network::Injective1 => "injective_1",
            Network::Harpoon4 => "harpoon_4",
            Network::Osmo4 => "osmo_4",
            Network::LocalOsmo => "local_osmo",
        }
    }

    /// Selects the network with the given name; `None` when no supported
    /// network bears it.
    pub fn from_name(name: &str) -> (r: Option<Network>)
        ensures
            r matches Some(n) ==> n.name_spec() == name@,
            r is None ==> forall|n: Network| #[trigger] n.name_spec() != name@,
    {
        if same_text(name, "UNI_6") {
            Some(Network::Uni6)
        } else if same_text(name, "JUNO_1") {
            Some(Network::Juno1)
        } else if same_text(name, "TESTING") {
            Some(Network::Testing)
        } else if same_text(name, "PISCO_1") {
            Some(Network::Pisco1)
        } else if same_text(name, "PHOENIX_1") {
            Some(Network::Phoenix1)
        } else if same_text(name, "LOCAL_TERRA") {
            Some(Network::LocalTerra)
        } else if same_text(name, "INJECTIVE_888") {
            Some(Network::Injective888)
        } else if same_text(name, "CONSTANTINE_1") {
            Some(Network::Constantine1)
        } else if same_text(name, "BARYON_1") {
            Some(Network::Baryon1)
        } else if same_text(name, "INJECTIVE_1") {
            Some(Network::Injective1)
        } else if same_text(name, "HARPOON_4") {
            Some(Network::Harpoon4)
        } else if same_text(name, "OSMO_4") {
            Some(Network::Osmo4)
        } else if same_text(name, "LOCAL_OSMO") {
            Some(Network::LocalOsmo)
        } else {
            None
        }
    }
}

} // verus!
