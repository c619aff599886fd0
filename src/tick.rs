use vstd::prelude::*;
use crate::backend::MarkPostedRequest;
use crate::item::FeedItem;

verus! {

/// What the loop that drives a tick must do next.
#[derive(PartialEq, Eq, Structural, Clone, Copy, Debug)]
pub enum Action {
    /// Format and send the item at this index to the chat channel.
    Send(usize),
    /// Wait the pacing delay that follows every send.
    Pause,
    /// Send the acknowledgement batch to the backend.
    MarkPosted,
    /// Nothing is left to do in this tick.
    Finish,
}

/// Mathematical state of one tick: the fetched items, the outcome of each
/// send so far (in order), the pacing delays taken, and whether the
/// acknowledgement was attempted.
pub ghost struct TickModel {
    pub items: Seq<FeedItem>,
    pub delivered: Seq<bool>,
    pub pauses: nat,
    pub ack_attempted: bool,
}

/// Links of the first `n` items whose send succeeded, in order.
pub open spec fn links_upto(items: Seq<FeedItem>, oks: Seq<bool>, n: nat) -> Seq<String>
    decreases n,
{
    if n == 0 {
        seq![]
    } else {
        let rest = links_upto(items, oks, (n - 1) as nat);
        if oks[n - 1] {
            rest.push(items[n - 1].link)
        } else {
            rest
        }
    }
}

/// Links of the items whose send succeeded (`oks[i]` for item `i`), in order.
pub open spec fn delivered_links(items: Seq<FeedItem>, oks: Seq<bool>) -> Seq<String> {
    links_upto(items, oks, oks.len())
}

/// A tick that has just fetched `items` and done nothing yet.
pub open spec fn initial(items: Seq<FeedItem>) -> TickModel {
    TickModel { items, delivered: seq![], pauses: 0, ack_attempted: false }
}

/// Sends never outrun the items, and each send is followed by exactly one pause.
pub open spec fn model_wf(m: TickModel) -> bool {
    &&& m.delivered.len() <= m.items.len()
    &&& m.pauses <= m.delivered.len() <= m.pauses + 1
}

/// The acknowledgement batch of a tick.
pub open spec fn batch(m: TickModel) -> Seq<String> {
    delivered_links(m.items, m.delivered)
}

/// The next step: a pending pause first, then the next unsent item, then the
/// acknowledgement if anything was delivered, then the end.
pub open spec fn action(m: TickModel) -> Action {
    if m.delivered.len() > m.pauses {
        Action::Pause
    } else if m.delivered.len() < m.items.len() {
        Action::Send(m.delivered.len() as usize)
    } else if !m.ack_attempted && batch(m).len() > 0 {
        Action::MarkPosted
    } else {
        Action::Finish
    }
}

/// The state after a send with outcome `ok`.
pub open spec fn after_sent(m: TickModel, ok: bool) -> TickModel {
    TickModel { delivered: m.delivered.push(ok), ..m }
}

/// The state after the pacing delay.
pub open spec fn after_paused(m: TickModel) -> TickModel {
    TickModel { pauses: m.pauses + 1, ..m }
}

/// The state after the acknowledgement was attempted.
pub open spec fn after_acknowledged(m: TickModel) -> TickModel {
    TickModel { ack_attempted: true, ..m }
}

/// A tick over `items` in which the send of item `i` had outcome `oks[i]`,
/// each send followed by its pause.
pub open spec fn run(items: Seq<FeedItem>, oks: Seq<bool>) -> TickModel
    decreases oks.len(),
{
    if oks.len() == 0 {
        initial(items)
    } else {
        after_paused(after_sent(run(items, oks.drop_last()), oks.last()))
    }
}

proof fn lemma_links_upto_prefix(items: Seq<FeedItem>, a: Seq<bool>, b: Seq<bool>, n: nat)
    requires
        n <= a.len(),
        n <= b.len(),
        forall|j: int| 0 <= j < n ==> a[j] == b[j],
    ensures
        links_upto(items, a, n) == links_upto(items, b, n),
    decreases n,
{
    if n > 0 {
        lemma_links_upto_prefix(items, a, b, (n - 1) as nat);
    }
}

proof fn lemma_links_upto_concat(
    a: Seq<FeedItem>,
    x: Seq<bool>,
    b: Seq<FeedItem>,
    y: Seq<bool>,
    j: nat,
)
    requires
        a.len() == x.len(),
        j <= b.len(),
        j <= y.len(),
    ensures
        links_upto(a + b, x + y, x.len() + j) == links_upto(a, x, x.len()) + links_upto(b, y, j),
    decreases j,
{
    if j == 0 {
        lemma_links_upto_items(a + b, a, x + y, x, x.len());
        assert(links_upto(b, y, 0) =~= seq![]);
        assert(links_upto(a, x, x.len()) + seq![] =~= links_upto(a, x, x.len()));
    } else {
        lemma_links_upto_concat(a, x, b, y, (j - 1) as nat);
        let n = x.len() + j;
        assert((x + y)[n - 1] == y[j - 1]);
        assert((a + b)[n - 1] == b[j - 1]);
        let l = links_upto(a, x, x.len());
        let r = links_upto(b, y, (j - 1) as nat);
        assert((l + r).push(b[j - 1].link) =~= l + r.push(b[j - 1].link));
    }
}

proof fn lemma_links_upto_items(
    a: Seq<FeedItem>,
    b: Seq<FeedItem>,
    x: Seq<bool>,
    y: Seq<bool>,
    n: nat,
)
    requires
        n <= a.len(),
        n <= b.len(),
        n <= x.len(),
        n <= y.len(),
        forall|j: int| 0 <= j < n ==> a[j] == b[j] && x[j] == y[j],
    ensures
        links_upto(a, x, n) == links_upto(b, y, n),
    decreases n,
{
    if n > 0 {
        lemma_links_upto_items(a, b, x, y, (n - 1) as nat);
    }
}

proof fn lemma_run_shape(items: Seq<FeedItem>, oks: Seq<bool>)
    requires
        oks.len() <= items.len(),
    ensures
        run(items, oks).items == items,
        run(items, oks).delivered == oks,
        run(items, oks).pauses == oks.len(),
        !run(items, oks).ack_attempted,
        model_wf(run(items, oks)),
    decreases oks.len(),
{
    if oks.len() > 0 {
        lemma_run_shape(items, oks.drop_last());
        assert(oks.drop_last().push(oks.last()) =~= oks);
    } else {
        assert(oks =~= seq![]);
    }
}

/// One reconciliation pass over the items fetched at its start. The loop that
/// owns it asks `next_action`, performs it, and reports the outcome back.
pub struct Tick {
    items: Vec<FeedItem>,
    delivered: Vec<bool>,
    batch: Vec<String>,
    pauses: usize,
    ack_attempted: bool,
}

impl View for Tick {
    type V = TickModel;

    closed spec fn view(&self) -> TickModel {
        TickModel {
            items: self.items@,
            delivered: self.delivered@,
            pauses: self.pauses as nat,
            ack_attempted: self.ack_attempted,
        }
    }
}

impl Tick {
    /// The model is well formed and the batch holds the delivered links.
    pub closed spec fn wf(&self) -> bool {
        &&& model_wf(self@)
        &&& self.batch@ == batch(self@)
    }

    /// Starts a tick over the items that the backend returned, in its order.
    pub fn new(items: Vec<FeedItem>) -> (t: Tick)
        ensures
            t.wf(),
            t@ == initial(items@),
    {
        let t = Tick {
            items,
            delivered: Vec::new(),
            batch: Vec::new(),
            pauses: 0,
            ack_attempted: false,
        };
        assert(t.batch@ =~= batch(t@));
        t
    }

    /// What the driving loop must do next.
    pub fn next_action(&self) -> (a: Action)
        requires
            self.wf(),
        ensures
            a == action(self@),
    {
        if self.delivered.len() > self.pauses {
            Action::Pause
        } else if self.delivered.len() < self.items.len() {
            Action::Send(self.delivered.len())
        } else if !self.ack_attempted && self.batch.len() > 0 {
            Action::MarkPosted
        } else {
            Action::Finish
        }
    }

    /// Number of fetched items.
    pub fn len(&self) -> (n: usize)
        ensures
            n == self@.items.len(),
    {
        self.items.len()
    }

    /// The fetched item at `i`.
    pub fn item(&self, i: usize) -> (r: &FeedItem)
        requires
            i < self@.items.len(),
        ensures
            *r == self@.items[i as int],
    {
        &self.items[i]
    }

    /// Links delivered so far, in delivery order.
    pub fn batch(&self) -> (r: &Vec<String>)
        requires
            self.wf(),
        ensures
            r@ == batch(self@),
    {
        &self.batch
    }

    /// The acknowledgement to send: the batch's links, in delivery order.
    pub fn ack_request(&self) -> (r: MarkPostedRequest)
        requires
            self.wf(),
        ensures
            r.links@ == batch(self@),
    {
        let mut links: Vec<String> = Vec::new();
        let mut i: usize = 0;
        while i < self.batch.len()
            invariant
                i <= self.batch@.len(),
                links@ == self.batch@.take(i as int),
            decreases self.batch@.len() - i,
        {
            links.push(self.batch[i].clone());
            i = i + 1;
            assert(links@ =~= self.batch@.take(i as int));
        }
        assert(self.batch@.take(i as int) =~= self.batch@);
        MarkPostedRequest { links }
    }

    /// Records the outcome of sending the current item: a success adds its
    /// link to the batch, a failure leaves the batch as it was.
    pub fn on_sent(&mut self, ok: bool)
        requires
            old(self).wf(),
            action(old(self)@) is Send,
        ensures
            final(self).wf(),
            final(self)@ == after_sent(old(self)@, ok),
    {
        let i = self.delivered.len();
        if ok {
            let link = self.items[i].link.clone();
            self.batch.push(link);
        }
        self.delivered.push(ok);
        proof {
            let items = self.items@;
            lemma_links_upto_prefix(items, old(self).delivered@, self.delivered@, i as nat);
        }
    }

    /// Records that the pacing delay after a send has passed.
    pub fn on_paused(&mut self)
        requires
            old(self).wf(),
            action(old(self)@) is Pause,
        ensures
            final(self).wf(),
            final(self)@ == after_paused(old(self)@),
    {
        let sent = self.delivered.len();
        assert(self.pauses < sent);
        self.pauses = self.pauses + 1;
    }

    /// Records that the acknowledgement was attempted; whatever the backend
    /// answered, the tick is then over.
    pub fn on_acknowledged(&mut self)
        requires
            old(self).wf(),
            action(old(self)@) is MarkPosted,
        ensures
            final(self).wf(),
            final(self)@ == after_acknowledged(old(self)@),
    {
        self.ack_attempted = true;
    }
}

/// An empty response ends the tick at once: nothing is sent and nothing is
/// acknowledged.
pub proof fn lemma_empty_response_sends_nothing(items: Seq<FeedItem>)
    requires
        items.len() == 0,
    ensures
        action(initial(items)) == Action::Finish,
{
    assert(batch(initial(items)) =~= seq![]);
}

/// Once every fetched item has been tried, the acknowledgement batch is exactly
/// the links of the items whose send succeeded, in the order they were tried;
/// it is sent if and only if it is non-empty.
pub proof fn lemma_batch_is_the_delivered_links(items: Seq<FeedItem>, oks: Seq<bool>)
    requires
        oks.len() == items.len(),
    ensures
        batch(run(items, oks)) == delivered_links(items, oks),
        delivered_links(items, oks).len() > 0 ==> action(run(items, oks)) == Action::MarkPosted,
        delivered_links(items, oks).len() == 0 ==> action(run(items, oks)) == Action::Finish,
        action(after_acknowledged(run(items, oks))) == Action::Finish,
{
    lemma_run_shape(items, oks);
}

/// A failed send of item `i` removes its link, and only its link, from the
/// batch that the same tick would have built had that send succeeded.
pub proof fn lemma_failure_excludes_only_its_link(items: Seq<FeedItem>, oks: Seq<bool>, i: int)
    requires
        oks.len() == items.len(),
        0 <= i < oks.len(),
        !oks[i],
    ensures
        ({
            let before = delivered_links(items.take(i), oks.take(i));
            let after = delivered_links(items.skip(i + 1), oks.skip(i + 1));
            &&& delivered_links(items, oks) == before + after
            &&& delivered_links(items, oks.update(i, true)) == before + seq![items[i].link] + after
        }),
{
    let good = oks.update(i, true);
    let head = items.take(i + 1);
    let tail = items.skip(i + 1);
    assert(head + tail =~= items);
    assert(oks.take(i + 1) + oks.skip(i + 1) =~= oks);
    assert(good.take(i + 1) + good.skip(i + 1) =~= good);
    assert(good.skip(i + 1) =~= oks.skip(i + 1));
    let m = tail.len();
    lemma_links_upto_concat(head, oks.take(i + 1), tail, oks.skip(i + 1), m);
    lemma_links_upto_concat(head, good.take(i + 1), tail, good.skip(i + 1), m);
    lemma_links_upto_items(head, items.take(i), oks.take(i + 1), oks.take(i), i as nat);
    lemma_links_upto_items(head, items.take(i), good.take(i + 1), oks.take(i), i as nat);
    assert(links_upto(head, good.take(i + 1), (i + 1) as nat)
        == links_upto(head, good.take(i + 1), i as nat).push(items[i].link));
    assert(links_upto(items.take(i), oks.take(i), i as nat).push(items[i].link)
        =~= links_upto(items.take(i), oks.take(i), i as nat) + seq![items[i].link]);
}

/// A tick depends on nothing but the items fetched at its start: every one of
/// them is sent, in order, whatever earlier ticks delivered or acknowledged.
/// Items that a failed acknowledgement left unposted are therefore sent again.
pub proof fn lemma_every_fetched_item_is_sent(items: Seq<FeedItem>, oks: Seq<bool>)
    requires
        oks.len() < items.len(),
        items.len() <= usize::MAX,
    ensures
        action(run(items, oks)) == Action::Send(oks.len() as usize),
{
    lemma_run_shape(items, oks);
}

/// Every send is followed by a pause before the tick can acknowledge or end:
/// a tick that is done with its items has paused once per item.
pub proof fn lemma_one_pause_per_item(m: TickModel)
    requires
        model_wf(m),
        action(m) == Action::MarkPosted || action(m) == Action::Finish,
    ensures
        m.pauses == m.items.len(),
        m.delivered.len() == m.items.len(),
{
}

} // verus!
