//! Names that the API fixes in advance.

use vstd::prelude::*;

verus! {

/// The background queues of the server, as the health endpoints name them.
#[derive(Clone, Copy, Debug, Default, PartialEq, Eq, Structural)]
pub enum Name {
    #[default]
    V1Database,
    V1Deletes,
    V1Audits,
    V1Mails,
    V1Functions,
    V1Usage,
    V1UsageDump,
    Webhooksv1,
    V1Certificates,
    V1Builds,
    V1Messaging,
    V1Migrations,
    Hamsterv1,
}

/// The name by which the API knows each queue.
pub open spec fn wire_name(n: Name) -> Seq<char> {
    match n {
        Name::V1Database => "v1-database"@,
        Name::V1Deletes => "v1-deletes"@,
        Name::V1Audits => "v1-audits"@,
        Name::V1Mails => "v1-mails"@,
        Name::V1Functions => "v1-functions"@,
        Name::V1Usage => "v1-usage"@,
        Name::V1UsageDump => "v1-usage-dump"@,
        Name::Webhooksv1 => "webhooksv1"@,
        Name::V1Certificates => "v1-certificates"@,
        Name::V1Builds => "v1-builds"@,
        Name::V1Messaging => "v1-messaging"@,
        Name::V1Migrations => "v1-migrations"@,
        Name::Hamsterv1 => "hamsterv1"@,
    }
}

impl Name {
    /// The name by which the API knows this queue.
    pub fn as_str(&self) -> (r: &'static str)
        ensures
            r@ == wire_name(*self),
    {
        match self {
            Name::V1Database => "v1-database",
            Name::V1Deletes => "v1-deletes",
            Name::V1Audits => "v1-audits",
            Name::V1Mails => "v1-mails",
            Name::V1Functions => "v1-functions",
            Name::V1Usage => "v1-usage",
            Name::V1UsageDump => "v1-usage-dump",
            Name::Webhooksv1 => "webhooksv1",
            Name::V1Certificates => "v1-certificates",
            Name::V1Builds => "v1-builds",
            Name::V1Messaging => "v1-messaging",
            Name::V1Migrations => "v1-migrations",
            Name::Hamsterv1 => "hamsterv1",
        }
    }

    /// The queue that the API knows by `s`, if any.
    pub fn parse(s: &str) -> (r: Option<Name>)
        ensures
            r == name_of(s@),
    {
        let mut i: usize = 0;
        let all = Name::all();
        while i < all.len()
            invariant
                all@ == all_names(),
                i <= all@.len(),
                forall|j: int| 0 <= j < i ==> wire_name(#[trigger] all@[j]) != s@,
            decreases all@.len() - i,
        {
            let n = all[i];
            if str_eq(n.as_str(), s) {
                proof {
                    lemma_wire_name_injective(n, name_of(s@)->Some_0);
                }
                return Some(n);
            }
            i = i + 1;
        }
        proof {
            assert forall|n: Name| wire_name(n) != s@ by {
                lemma_all_names_complete(n);
                let j = choose|j: int| 0 <= j < all_names().len() && all_names()[j] == n;
                assert(wire_name(all@[j]) != s@);
            }
        }
        assert(name_of(s@) is None);
        None
    }

    /// Every queue, once each.
    pub fn all() -> (r: Vec<Name>)
        ensures
            r@ == all_names(),
    {
        let r = vec![
            Name::V1Database,
            Name::V1Deletes,
            Name::V1Audits,
            Name::V1Mails,
            Name::V1Functions,
            Name::V1Usage,
            Name::V1UsageDump,
            Name::Webhooksv1,
            Name::V1Certificates,
            Name::V1Builds,
            Name::V1Messaging,
            Name::V1Migrations,
            Name::Hamsterv1,
        ];
        assert(r@ =~= all_names());
        r
    }
}

/// The queue that the API knows by `s`, if any.
pub open spec fn name_of(s: Seq<char>) -> Option<Name> {
    if exists|n: Name| wire_name(n) == s {
        Some(choose|n: Name| wire_name(n) == s)
    } else {
        None
    }
}

/// No two queues share a name.
pub proof fn lemma_wire_name_injective(a: Name, b: Name)
    ensures
        wire_name(a) == wire_name(b) ==> a == b,
{
    reveal_strlit("v1-database");
    reveal_strlit("v1-deletes");
    reveal_strlit("v1-audits");
    reveal_strlit("v1-mails");
    reveal_strlit("v1-functions");
    reveal_strlit("v1-usage");
    reveal_strlit("v1-usage-dump");
    reveal_strlit("webhooksv1");
    reveal_strlit("v1-certificates");
    reveal_strlit("v1-builds");
    reveal_strlit("v1-messaging");
    reveal_strlit("v1-migrations");
    reveal_strlit("hamsterv1");
    if wire_name(a) == wire_name(b) && a != b {
        let x = wire_name(a);
        let y = wire_name(b);
        assert(x.len() == y.len());
        assert(x[1] == y[1]);
        assert(x[3] == y[3]);
        assert(x[4] == y[4]);
        assert(x[5] == y[5]);
        assert(x.len() > 9 ==> x[9] == y[9]);
        assert(x.len() > 10 ==> x[10] == y[10]);
    }
}

/// Reading back the name of a queue gives that queue.
pub proof fn lemma_name_round_trip(n: Name)
    ensures
        name_of(wire_name(n)) == Some(n),
{
    let m = choose|m: Name| wire_name(m) == wire_name(n);
    lemma_wire_name_injective(m, n);
}

/// Every queue, in declaration order.
pub open spec fn all_names() -> Seq<Name> {
    seq![
        Name::V1Database,
        Name::V1Deletes,
        Name::V1Audits,
        Name::V1Mails,
        Name::V1Functions,
        Name::V1Usage,
        Name::V1UsageDump,
        Name::Webhooksv1,
        Name::V1Certificates,
        Name::V1Builds,
        Name::V1Messaging,
        Name::V1Migrations,
        Name::Hamsterv1,
    ]
}

/// Every queue stands in the list of all queues.
pub proof fn lemma_all_names_complete(n: Name)
    ensures
        exists|j: int| 0 <= j < all_names().len() && all_names()[j] == n,
{
    match n {
        Name::V1Database => assert(all_names()[0] == n),
        Name::V1Deletes => assert(all_names()[1] == n),
        Name::V1Audits => assert(all_names()[2] == n),
        Name::V1Mails => assert(all_names()[3] == n),
        Name::V1Functions => assert(all_names()[4] == n),
        Name::V1Usage => assert(all_names()[5] == n),
        Name::V1UsageDump => assert(all_names()[6] == n),
        Name::Webhooksv1 => assert(all_names()[7] == n),
        Name::V1Certificates => assert(all_names()[8] == n),
        Name::V1Builds => assert(all_names()[9] == n),
        Name::V1Messaging => assert(all_names()[10] == n),
        Name::V1Migrations => assert(all_names()[11] == n),
        Name::Hamsterv1 => assert(all_names()[12] == n),
    }
}

/// Whether two strings hold the same characters.
fn str_eq(a: &str, b: &str) -> (r: bool)
    ensures
        r == (a@ == b@),
{
    let x = a.to_owned();
    let y = b.to_owned();
    x == y
}

} // verus!
