use vstd::prelude::*;

use crate::error::ErrorKind;
use crate::models::Currency;

verus! {

/// The exchange, and routing key, that carries each currency's transactions.
pub open spec fn exchange_of(c: Currency) -> Seq<char> {
    match c {
        Currency::Btc => "btc_transactions"@,
        Currency::Eth => "eth_transactions"@,
        Currency::Stq => "stq_transactions"@,
    }
}

/// The durable direct exchange that carries transactions of `currency`.
pub fn exchange_name(currency: Currency) -> (r: &'static str)
    ensures
        r@ == exchange_of(currency),
{
    match currency {
        Currency::Btc => "btc_transactions",
        Currency::Eth => "eth_transactions",
        Currency::Stq => "stq_transactions",
    }
}

/// The routing key of a currency's messages: the exchange's own name.
pub fn routing_key(currency: Currency) -> (r: &'static str)
    ensures
        r@ == exchange_of(currency),
{
    exchange_name(currency)
}

/// How a borrow from the channel pool went.
#[derive(Clone, Copy, Debug, PartialEq, Eq, Structural)]
pub enum Borrow {
    /// An idle open channel was handed out.
    Reused,
    /// A channel had to be opened, in place of one discarded or never opened.
    Opened,
    /// Every channel is out: the caller waits for one to come back.
    Wait,
}

/// Bookkeeping of a fixed-size pool of broker channels.
#[derive(Clone, Copy, Debug)]
pub struct ChannelPool {
    size: u64,
    open: u64,
    borrowed: u64,
}

impl ChannelPool {
    pub closed spec fn size(&self) -> nat {
        self.size as nat
    }

    /// Channels open, idle or out.
    pub closed spec fn open_channels(&self) -> nat {
        self.open as nat
    }

    /// Channels handed out and not yet given back.
    pub closed spec fn borrowed(&self) -> nat {
        self.borrowed as nat
    }

    pub closed spec fn wf(&self) -> bool {
        self.borrowed <= self.open <= self.size
    }

    /// What `wf` means in terms of the counts.
    pub open spec fn bounded(&self) -> bool {
        self.borrowed() <= self.open_channels() <= self.size()
    }

    /// A pool of `size` channels, none opened yet.
    pub fn new(size: u64) -> (r: ChannelPool)
        ensures
            r.wf(),
            r.bounded(),
            r.size() == size,
            r.open_channels() == 0,
            r.borrowed() == 0,
    {
        ChannelPool { size, open: 0, borrowed: 0 }
    }

    /// Channels out at the moment.
    pub fn in_use(&self) -> (r: u64)
        requires
            self.wf(),
        ensures
            self.bounded(),
            r == self.borrowed(),
    {
        self.borrowed
    }

    /// Borrows a channel: an idle one if any, else a new one while the pool is
    /// below its size, else none and the caller waits.
    pub fn try_borrow(&mut self) -> (r: Borrow)
        requires
            old(self).wf(),
        ensures
            final(self).wf(),
            final(self).bounded(),
            final(self).size() == old(self).size(),
            old(self).borrowed() < old(self).open_channels() ==> r == Borrow::Reused
                && final(self).open_channels() == old(self).open_channels()
                && final(self).borrowed() == old(self).borrowed() + 1,
            old(self).borrowed() == old(self).open_channels() && old(self).open_channels() < old(
                self,
            ).size() ==> r == Borrow::Opened && final(self).open_channels()
                == old(self).open_channels() + 1 && final(self).borrowed() == old(self).borrowed()
                + 1,
            old(self).borrowed() == old(self).size() ==> r == Borrow::Wait && *final(self) == *old(
                self,
            ),
    {
        if self.borrowed < self.open {
            self.borrowed = self.borrowed + 1;
            Borrow::Reused
        } else if self.open < self.size {
            self.open = self.open + 1;
            self.borrowed = self.borrowed + 1;
            Borrow::Opened
        } else {
            Borrow::Wait
        }
    }

    /// Gives a borrowed channel back after a publish. A channel that reported a
    /// transport error is discarded, and the publish fails with `Broker`.
    pub fn give_back(&mut self, broken: bool) -> (r: Result<(), ErrorKind>)
        requires
            old(self).wf(),
            old(self).borrowed() > 0,
        ensures
            final(self).wf(),
            final(self).bounded(),
            final(self).size() == old(self).size(),
            final(self).borrowed() + 1 == old(self).borrowed(),
            broken ==> r == Err::<(), ErrorKind>(ErrorKind::Broker) && final(self).open_channels()
                + 1 == old(self).open_channels(),
            !broken ==> r == Ok::<(), ErrorKind>(()) && final(self).open_channels() == old(
                self,
            ).open_channels(),
    {
        self.borrowed = self.borrowed - 1;
        if broken {
            self.open = self.open - 1;
            Err(ErrorKind::Broker)
        } else {
            Ok(())
        }
    }
}

/// What a consumer has seen, keyed by transaction hash.
#[derive(Clone, Debug)]
pub struct DeliveryLedger {
    hashes: Vec<String>,
}

impl View for DeliveryLedger {
    type V = Set<Seq<char>>;

    closed spec fn view(&self) -> Set<Seq<char>> {
        Set::new(|h: Seq<char>| exists|i: int| 0 <= i < self.hashes@.len() && self.hashes@[i]@ == h)
    }
}

impl DeliveryLedger {
    pub fn new() -> (r: DeliveryLedger)
        ensures
            r@ == Set::<Seq<char>>::empty(),
    {
        let r = DeliveryLedger { hashes: Vec::new() };
        assert(r@ =~= Set::<Seq<char>>::empty());
        r
    }

    /// Records a delivery; true where its hash had not been seen, false for a
    /// duplicate, which the consumer drops.
    pub fn record(&mut self, hash: &str) -> (r: bool)
        ensures
            final(self)@ == old(self)@.insert(hash@),
            r == !old(self)@.contains(hash@),
            old(self)@.contains(hash@) ==> final(self)@ == old(self)@,
    {
        let h = String::from_str(hash);
        let mut i: usize = 0;
        while i < self.hashes.len()
            invariant
                0 <= i <= self.hashes@.len(),
                h@ == hash@,
                forall|j: int| 0 <= j < i ==> (#[trigger] self.hashes@[j])@ != hash@,
            decreases self.hashes@.len() - i,
        {
            if self.hashes[i] == h {
                assert(self@.contains(hash@));
                assert(self@.insert(hash@) =~= self@);
                return false;
            }
            i = i + 1;
        }
        let ghost before = self@;
        assert(!before.contains(hash@));
        self.hashes.push(h);
        assert forall|x: Seq<char>| self@.contains(x) <==> before.insert(hash@).contains(x) by {
            if self@.contains(x) {
                let k = choose|k: int| 0 <= k < self.hashes@.len() && self.hashes@[k]@ == x;
                if k < self.hashes@.len() - 1 {
                    assert(before.contains(x));
                }
            }
            if before.contains(x) {
                let k = choose|k: int|
                    0 <= k < self.hashes@.len() - 1 && old(self).hashes@[k]@ == x;
                assert(self.hashes@[k] == old(self).hashes@[k]);
            }
            if x == hash@ {
                assert(self.hashes@[self.hashes@.len() - 1]@ == x);
            }
        }
        assert(self@ =~= before.insert(hash@));
        true
    }

    /// Whether a hash has been delivered.
    pub fn contains(&self, hash: &str) -> (r: bool)
        ensures
            r == self@.contains(hash@),
    {
        let h = String::from_str(hash);
        let mut i: usize = 0;
        while i < self.hashes.len()
            invariant
                0 <= i <= self.hashes@.len(),
                h@ == hash@,
                forall|j: int| 0 <= j < i ==> (#[trigger] self.hashes@[j])@ != hash@,
            decreases self.hashes@.len() - i,
        {
            if self.hashes[i] == h {
                return true;
            }
            i = i + 1;
        }
        false
    }
}

} // verus!
