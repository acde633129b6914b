use vstd::prelude::*;
use vstd::string::*;

use crate::ids::{fresh_doc_id, DocId};

verus! {

/// The partition key of an account in the key-value store:
/// `"{brokerage_id}#{account_id}"`.
pub open spec fn partition_key(brokerage_id: Seq<char>, account_id: Seq<char>) -> Seq<char> {
    brokerage_id + seq!['#'] + account_id
}

/// A brokerage account as the document database keeps it: a generated
/// identity and the business key (brokerage id, account id).
#[derive(Clone, Debug)]
pub struct BrokerageAccount {
    pub id: DocId,
    pub brokerage_id: String,
    pub account_id: String,
}

impl View for BrokerageAccount {
    type V = (Seq<u8>, Seq<char>, Seq<char>);

    /// (identity, brokerage id, account id)
    open spec fn view(&self) -> (Seq<u8>, Seq<char>, Seq<char>) {
        (self.id.bytes@, self.brokerage_id@, self.account_id@)
    }
}

impl PartialEq for BrokerageAccount {
    fn eq(&self, other: &BrokerageAccount) -> (r: bool) {
        self.id == other.id && self.brokerage_id == other.brokerage_id && self.account_id
            == other.account_id
    }
}

impl vstd::std_specs::cmp::PartialEqSpecImpl for BrokerageAccount {
    open spec fn obeys_eq_spec() -> bool {
        true
    }

    open spec fn eq_spec(&self, other: &BrokerageAccount) -> bool {
        self@ == other@
    }
}

impl BrokerageAccount {
    /// A new account value with a freshly generated identity; nothing is stored.
    pub fn new(brokerage_id: &str, account_id: &str) -> (r: BrokerageAccount)
        ensures
            r.brokerage_id@ == brokerage_id@,
            r.account_id@ == account_id@,
    {
        BrokerageAccount {
            id: fresh_doc_id(),
            brokerage_id: brokerage_id.to_owned(),
            account_id: account_id.to_owned(),
        }
    }

    /// An account value with a known identity (as read back from the store).
    pub fn with_id(id: DocId, brokerage_id: &str, account_id: &str) -> (r: BrokerageAccount)
        ensures
            r.id == id,
            r.brokerage_id@ == brokerage_id@,
            r.account_id@ == account_id@,
    {
        BrokerageAccount { id, brokerage_id: brokerage_id.to_owned(), account_id: account_id.to_owned() }
    }

    pub fn id(&self) -> (r: DocId)
        ensures
            r == self.id,
    {
        self.id
    }

    pub fn brokerage_id(&self) -> (r: &str)
        ensures
            r@ == self.brokerage_id@,
    {
        self.brokerage_id.as_str()
    }

    pub fn account_id(&self) -> (r: &str)
        ensures
            r@ == self.account_id@,
    {
        self.account_id.as_str()
    }
}

/// The document database's account type.
pub type MdbBrokerageAccount = BrokerageAccount;

/// A brokerage account as the key-value store keeps it: its identity is the
/// partition key derived from the business key.
#[derive(Clone, Debug)]
pub struct DynamoBrokerageAccount {
    pub pk: String,
    pub account_id: String,
    pub brokerage_id: String,
}

impl View for DynamoBrokerageAccount {
    type V = (Seq<char>, Seq<char>, Seq<char>);

    /// (partition key, account id, brokerage id)
    open spec fn view(&self) -> (Seq<char>, Seq<char>, Seq<char>) {
        (self.pk@, self.account_id@, self.brokerage_id@)
    }
}

impl PartialEq for DynamoBrokerageAccount {
    fn eq(&self, other: &DynamoBrokerageAccount) -> (r: bool) {
        self.pk == other.pk && self.account_id == other.account_id && self.brokerage_id
            == other.brokerage_id
    }
}

impl vstd::std_specs::cmp::PartialEqSpecImpl for DynamoBrokerageAccount {
    open spec fn obeys_eq_spec() -> bool {
        true
    }

    open spec fn eq_spec(&self, other: &DynamoBrokerageAccount) -> bool {
        self@ == other@
    }
}

impl DynamoBrokerageAccount {
    /// The identity is derived from, and agrees with, the business key.
    pub open spec fn wf(&self) -> bool {
        self.pk@ == partition_key(self.brokerage_id@, self.account_id@)
    }

    pub fn new(brokerage_id: &str, account_id: &str) -> (r: DynamoBrokerageAccount)
        ensures
            r.wf(),
            r.brokerage_id@ == brokerage_id@,
            r.account_id@ == account_id@,
    {
        DynamoBrokerageAccount {
            pk: Self::pk(brokerage_id, account_id),
            account_id: account_id.to_owned(),
            brokerage_id: brokerage_id.to_owned(),
        }
    }

    /// The partition key for a business key: the brokerage id and the
    /// account id joined by `#`. Where the brokerage id holds no `#`, distinct
    /// business keys get distinct partition keys (`lemma_partition_key_injective`).
    /// Where it does, two business keys can share one: (`a#b`, `c`) and (`a`,
    /// `b#c`) both give `a#b#c`, so the store refuses the second insert as a
    /// conflict, and a lookup checks the business key of what it finds.
    pub fn pk(brokerage_id: &str, account_id: &str) -> (r: String)
        ensures
            r@ == partition_key(brokerage_id@, account_id@),
    {
        let mut key = String::from_str(brokerage_id);
        key.append("#");
        key.append(account_id);
        proof {
            reveal_strlit("#");
        }
        key
    }

    pub fn account_id(&self) -> (r: &str)
        ensures
            r@ == self.account_id@,
    {
        self.account_id.as_str()
    }

    pub fn brokerage_id(&self) -> (r: &str)
        ensures
            r@ == self.brokerage_id@,
    {
        self.brokerage_id.as_str()
    }
}

/// Partition keys do not collide while brokerage ids hold no `#`: equal
/// partition keys then mean equal business keys.
pub proof fn lemma_partition_key_injective(b1: Seq<char>, a1: Seq<char>, b2: Seq<char>, a2: Seq<char>)
    requires
        !b1.contains('#'),
        !b2.contains('#'),
        partition_key(b1, a1) == partition_key(b2, a2),
    ensures
        b1 == b2,
        a1 == a2,
{
    let k = partition_key(b1, a1);
    assert(k[b1.len() as int] == '#');
    assert(k[b2.len() as int] == '#');
    if b1.len() < b2.len() {
        assert(k[b1.len() as int] == b2[b1.len() as int]);
        assert(b2.contains('#'));
    } else if b2.len() < b1.len() {
        assert(k[b2.len() as int] == b1[b2.len() as int]);
        assert(b1.contains('#'));
    }
    assert(b1 =~= k.subrange(0, b1.len() as int));
    assert(b2 =~= k.subrange(0, b2.len() as int));
    assert(a1 =~= k.subrange(b1.len() as int + 1, k.len() as int));
    assert(a2 =~= k.subrange(b2.len() as int + 1, k.len() as int));
}

} // verus!
