use vstd::prelude::*;
use vstd::string::StringExecFns;

use crate::json::{
    content_message, decimal_text, json_member_str, json_str_member, json_string,
};
use crate::text::decimal;

verus! {

/// The message that tells a page how many pages are connected.
pub open spec fn clients_message(count: nat) -> Seq<char> {
    "{\"count\":"@ + decimal(count) + ",\"type\":\"clients\"}"@
}

/// The connected pages other than `sender`, in the order they joined.
pub open spec fn others(clients: Seq<u64>, sender: u64) -> Seq<u64> {
    clients.filter(is_not(sender))
}

/// The test for a number other than `id`.
pub open spec fn is_not(id: u64) -> spec_fn(u64) -> bool {
    |c: u64| c != id
}

/// The hub before any page has joined: an empty text and no pages.
pub open spec fn initial_hub() -> HubView {
    HubView { content: Seq::empty(), clients: Seq::empty(), next_id: 0 }
}

/// The hub after a page joins: it gets the next number (numbers wrap around
/// after the largest `u64`) and goes to the end of the list.
pub open spec fn joined(h: HubView) -> HubView {
    HubView {
        clients: h.clients.push(h.next_id),
        next_id: if h.next_id == u64::MAX {
            0
        } else {
            (h.next_id + 1) as u64
        },
        ..h
    }
}

/// The hub after a page publishes `data`.
pub open spec fn published(h: HubView, data: Seq<char>) -> HubView {
    HubView { content: data, ..h }
}

/// The hub after page `id` leaves.
pub open spec fn left(h: HubView, id: u64) -> HubView {
    HubView { clients: others(h.clients, id), ..h }
}

/// What happens to the hub.
pub enum HubEvent {
    Join,
    Publish(u64, Seq<char>),
    Leave(u64),
}

/// The hub after one event.
pub open spec fn step(h: HubView, e: HubEvent) -> HubView {
    match e {
        HubEvent::Join => joined(h),
        HubEvent::Publish(_, data) => published(h, data),
        HubEvent::Leave(id) => left(h, id),
    }
}

/// The hub after a sequence of events, in order.
pub open spec fn run(h: HubView, es: Seq<HubEvent>) -> HubView
    decreases es.len(),
{
    if es.len() == 0 {
        h
    } else {
        step(run(h, es.drop_last()), es.last())
    }
}

/// How many joins a sequence of events holds.
pub open spec fn join_count(es: Seq<HubEvent>) -> nat
    decreases es.len(),
{
    if es.len() == 0 {
        0
    } else {
        join_count(es.drop_last()) + if es.last() is Join {
            1nat
        } else {
            0nat
        }
    }
}

/// The text of the last publish in a sequence of events, or the empty text
/// when there is none.
pub open spec fn last_text(es: Seq<HubEvent>) -> Seq<char>
    decreases es.len(),
{
    if es.len() == 0 {
        Seq::empty()
    } else {
        match es.last() {
            HubEvent::Publish(_, data) => data,
            _ => last_text(es.drop_last()),
        }
    }
}

/// One message for several pages.
pub struct Delivery {
    pub recipients: Vec<u64>,
    pub message: String,
}

/// A page that has just joined: its number, the message that greets it with
/// the shared text, and the message for all pages about the new count.
pub struct Joined {
    pub id: u64,
    pub greeting: String,
    pub notice: Delivery,
}

/// The shared text and the pages that are connected to it.
pub struct Hub {
    pub content: String,
    pub clients: Vec<u64>,
    pub next_id: u64,
}

/// The hub's state, with the text as a character sequence.
pub struct HubView {
    pub content: Seq<char>,
    pub clients: Seq<u64>,
    pub next_id: u64,
}

impl View for Hub {
    type V = HubView;

    open spec fn view(&self) -> HubView {
        HubView { content: self.content@, clients: self.clients@, next_id: self.next_id }
    }
}

impl HubView {
    /// Every connected page has its own number, and every number handed out
    /// is below the next one to hand out.
    pub open spec fn wf(self) -> bool {
        &&& self.clients.no_duplicates()
        &&& forall|i: int| 0 <= i < self.clients.len() ==> #[trigger] self.clients[i] < self.next_id
    }
}

/// The message that tells a page the shared text.
pub fn content_message_text(text: &str) -> (m: String)
    ensures
        m@ == content_message(text@),
{
    let mut m = "{\"data\":".to_string();
    let q = json_string(text);
    m.append(q.as_str());
    m.append(",\"type\":\"content\"}");
    m
}

/// The message that tells a page how many pages are connected.
pub fn clients_message_text(count: u64) -> (m: String)
    ensures
        m@ == clients_message(count as nat),
{
    let mut m = "{\"count\":".to_string();
    let d = decimal_text(count);
    m.append(d.as_str());
    m.append(",\"type\":\"clients\"}");
    m
}

/// The pages in `clients` other than `sender`, in order.
fn others_of(clients: &Vec<u64>, sender: u64) -> (out: Vec<u64>)
    ensures
        out@ == others(clients@, sender),
{
    let mut out: Vec<u64> = Vec::new();
    let mut i: usize = 0;
    while i < clients.len()
        invariant
            i <= clients.len(),
            out@ == others(clients@.subrange(0, i as int), sender),
        decreases clients.len() - i,
    {
        let c: u64 = clients[i];
        proof {
            let pre = clients@.subrange(0, i as int);
            assert(clients@.subrange(0, i + 1) =~= pre.push(c));
            pre.lemma_filter_push(c, is_not(sender));
        }
        if c != sender {
            out.push(c);
        }
        i = i + 1;
    }
    assert(clients@.subrange(0, clients.len() as int) =~= clients@);
    out
}

fn copy_ids(v: &Vec<u64>) -> (out: Vec<u64>)
    ensures
        out@ == v@,
{
    let mut out: Vec<u64> = Vec::new();
    let mut i: usize = 0;
    while i < v.len()
        invariant
            i <= v.len(),
            out@ == v@.subrange(0, i as int),
        decreases v.len() - i,
    {
        out.push(v[i]);
        i = i + 1;
        assert(out@ =~= v@.subrange(0, i as int));
    }
    assert(v@.subrange(0, v.len() as int) =~= v@);
    out
}

impl Hub {
    /// An empty text and no pages.
    pub fn new() -> (h: Hub)
        ensures
            h@ == initial_hub(),
            h@.wf(),
    {
        Hub { content: String::new(), clients: Vec::new(), next_id: 0 }
    }

    /// The message for all pages about how many are connected.
    fn count_notice(&self) -> (d: Delivery)
        ensures
            d.recipients@ == self.clients@,
            d.message@ == clients_message(self.clients@.len()),
    {
        Delivery {
            recipients: copy_ids(&self.clients),
            message: clients_message_text(self.clients.len() as u64),
        }
    }

    /// A page connects: it is greeted with the shared text, gets the next
    /// number (numbers wrap around after the largest `u64`), joins the end of
    /// the list, and every page, the new one too, learns the new count.
    pub fn connect(&mut self) -> (j: Joined)
        ensures
            j.greeting@ == content_message(old(self)@.content),
            j.id == old(self)@.next_id,
            final(self)@ == joined(old(self)@),
            j.notice.recipients@ == final(self)@.clients,
            j.notice.message@ == clients_message(final(self)@.clients.len()),
            old(self)@.wf() && old(self)@.next_id < u64::MAX ==> final(self)@.wf(),
    {
        proof {
            if self@.wf() && self@.next_id < u64::MAX {
                join_gives_fresh_number(self@);
            }
        }
        let greeting = content_message_text(self.content.as_str());
        let id: u64 = self.next_id;
        self.next_id = self.next_id.wrapping_add(1);
        self.clients.push(id);
        let notice = self.count_notice();
        Joined { id, greeting, notice }
    }

    /// Page `sender` has set the shared text to `data`: it becomes the shared
    /// text, and every other page is told.
    pub fn publish(&mut self, sender: u64, data: &str) -> (d: Delivery)
        ensures
            final(self)@ == published(old(self)@, data@),
            d.recipients@ == others(old(self)@.clients, sender),
            d.message@ == content_message(data@),
            old(self)@.wf() ==> final(self)@.wf(),
    {
        self.content = data.to_string();
        Delivery {
            recipients: others_of(&self.clients, sender),
            message: content_message_text(data),
        }
    }

    /// A text message from page `sender`. When it is JSON with a string
    /// member `data`, that string is published; anything else is ignored.
    pub fn receive(&mut self, sender: u64, text: &str) -> (d: Option<Delivery>)
        ensures
            match json_member_str(text@, "data"@) {
                Some(data) => {
                    &&& final(self)@ == published(old(self)@, data)
                    &&& d matches Some(d) && d.recipients@ == others(old(self)@.clients, sender)
                        && d.message@ == content_message(data)
                },
                None => final(self)@ == old(self)@ && d is None,
            },
            old(self)@.wf() ==> final(self)@.wf(),
            forall|t: Seq<char>|
                #[trigger] content_message(t) == text@ ==> final(self)@.content == t && d is Some,
    {
        match json_str_member(text, "data") {
            Some(data) => Some(self.publish(sender, data.as_str())),
            None => None,
        }
    }

    /// Page `id` has gone: it leaves the list, and the pages left learn the
    /// new count.
    pub fn disconnect(&mut self, id: u64) -> (d: Delivery)
        ensures
            final(self)@ == left(old(self)@, id),
            d.recipients@ == final(self)@.clients,
            d.message@ == clients_message(final(self)@.clients.len()),
            old(self)@.wf() ==> final(self)@.wf(),
    {
        proof {
            if self@.wf() {
                leave_removes_only_that_page(self@, id);
            }
        }
        self.clients = others_of(&self.clients, id);
        self.count_notice()
    }

    /// The message that greets a page with the shared text.
    pub fn greeting(&self) -> (m: String)
        ensures
            m@ == content_message(self@.content),
    {
        content_message_text(self.content.as_str())
    }
}

proof fn lemma_filter_no_duplicates(s: Seq<u64>, id: u64)
    requires
        s.no_duplicates(),
    ensures
        others(s, id).no_duplicates(),
        forall|c: u64| #[trigger] others(s, id).contains(c) ==> s.contains(c) && c != id,
    decreases s.len(),
{
    if s.len() > 0 {
        let rest = s.drop_last();
        assert(rest.no_duplicates());
        lemma_filter_no_duplicates(rest, id);
        assert(rest.push(s.last()) =~= s);
        rest.lemma_filter_push(s.last(), is_not(id));
        assert(!rest.contains(s.last()));
        if s.last() != id {
            let o = others(rest, id);
            let p = o.push(s.last());
            assert(!o.contains(s.last()));
            assert forall|i: int, j: int| 0 <= i < p.len() && 0 <= j < p.len() && i != j implies p[i] != p[j] by {
                if i < o.len() && j < o.len() {
                } else if i < o.len() {
                    assert(o.contains(o[i]));
                } else {
                    assert(o.contains(o[j]));
                }
            }
        }
        assert forall|c: u64| #[trigger] others(s, id).contains(c) implies s.contains(c) && c != id by {
            if c != s.last() {
                assert(others(rest, id).contains(c));
                let k = choose|k: int| 0 <= k < rest.len() && rest[k] == c;
                assert(s[k] == c);
            }
        }
    } else {
        reveal(Seq::filter);
    }
}

proof fn lemma_filter_keeps_all(s: Seq<u64>, id: u64)
    requires
        !s.contains(id),
    ensures
        others(s, id) == s,
    decreases s.len(),
{
    if s.len() > 0 {
        let rest = s.drop_last();
        assert(!rest.contains(id)) by {
            if rest.contains(id) {
                let k = choose|k: int| 0 <= k < rest.len() && rest[k] == id;
                assert(s[k] == id);
            }
        }
        lemma_filter_keeps_all(rest, id);
        assert(rest.push(s.last()) =~= s);
        rest.lemma_filter_push(s.last(), is_not(id));
        assert(s.last() != id);
    } else {
        reveal(Seq::filter);
    }
}

/// Joining hands out a number that no connected page holds, and the numbers
/// of the connected pages stay distinct (until the numbers run out).
pub proof fn join_gives_fresh_number(h: HubView)
    requires
        h.wf(),
        h.next_id < u64::MAX,
    ensures
        !h.clients.contains(h.next_id),
        joined(h).wf(),
{
    if h.clients.contains(h.next_id) {
        let k = choose|k: int| 0 <= k < h.clients.len() && h.clients[k] == h.next_id;
        assert(h.clients[k] < h.next_id);
    }
    let c = h.clients.push(h.next_id);
    assert forall|i: int, j: int| 0 <= i < c.len() && 0 <= j < c.len() && i != j implies c[i] != c[j] by {
        if i < h.clients.len() && j < h.clients.len() {
        } else if i < h.clients.len() {
            assert(h.clients[i] < h.next_id);
        } else {
            assert(h.clients[j] < h.next_id);
        }
    }
    assert forall|i: int| 0 <= i < c.len() implies #[trigger] c[i] < (h.next_id + 1) as u64 by {
        if i < h.clients.len() {
            assert(h.clients[i] < h.next_id);
        }
    }
}

/// Leaving takes out exactly the page that left: it is gone, every other page
/// stays, and the numbers stay distinct.
pub proof fn leave_removes_only_that_page(h: HubView, id: u64)
    requires
        h.wf(),
    ensures
        !others(h.clients, id).contains(id),
        forall|c: u64| h.clients.contains(c) && c != id ==> #[trigger] others(h.clients, id).contains(c),
        forall|c: u64| #[trigger] others(h.clients, id).contains(c) ==> h.clients.contains(c),
        left(h, id).wf(),
{
    lemma_filter_no_duplicates(h.clients, id);
    publish_reaches_exactly_the_others(h.clients, id);
    let o = others(h.clients, id);
    assert forall|i: int| 0 <= i < o.len() implies #[trigger] o[i] < h.next_id by {
        assert(o.contains(o[i]));
        let k = choose|k: int| 0 <= k < h.clients.len() && h.clients[k] == o[i];
        assert(h.clients[k] < h.next_id);
    }
}

/// A page that joins and then leaves, with nothing in between, leaves the
/// list of pages as it was.
pub proof fn leave_undoes_join(h: HubView)
    requires
        h.wf(),
        h.next_id < u64::MAX,
    ensures
        others(h.clients.push(h.next_id), h.next_id) == h.clients,
{
    join_gives_fresh_number(h);
    h.clients.lemma_filter_push(h.next_id, is_not(h.next_id));
    lemma_filter_keeps_all(h.clients, h.next_id);
}

/// A new text reaches every page but its sender, and never the sender.
pub proof fn publish_reaches_exactly_the_others(clients: Seq<u64>, sender: u64)
    ensures
        !others(clients, sender).contains(sender),
        forall|c: u64| clients.contains(c) && c != sender ==> #[trigger] others(clients, sender).contains(c),
{
    broadcast use vstd::seq_lib::group_filter_ensures;
    if others(clients, sender).contains(sender) {
        let k = choose|k: int| 0 <= k < others(clients, sender).len() && others(clients, sender)[k] == sender;
        assert(is_not(sender)(others(clients, sender)[k]));
    }
    assert forall|c: u64| clients.contains(c) && c != sender implies #[trigger] others(clients, sender).contains(c) by {
        let k = choose|k: int| 0 <= k < clients.len() && clients[k] == c;
        clients.lemma_filter_contains(is_not(sender), k);
    }
}

/// From a fresh hub, pages are numbered in the order they join, from 0 up,
/// and the shared text is the last one published (the empty text before any
/// publish). So the page that joins after the events `es` gets number
/// `join_count(es)` and is greeted with `last_text(es)` (until the numbers run
/// out).
pub proof fn joins_are_numbered_in_order(es: Seq<HubEvent>)
    requires
        join_count(es) <= u64::MAX,
    ensures
        run(initial_hub(), es).next_id == join_count(es),
        run(initial_hub(), es).content == last_text(es),
    decreases es.len(),
{
    if es.len() > 0 {
        let rest = es.drop_last();
        assert(join_count(rest) <= join_count(es));
        joins_are_numbered_in_order(rest);
    }
}

/// Every connected page ends up with the latest text, whichever comes first:
/// a page that has joined is told a text that another page publishes later,
/// and a page that joins after a publish is greeted with that text.
pub proof fn every_page_gets_the_latest_text(h: HubView, sender: u64, data: Seq<char>)
    requires
        h.wf(),
        h.next_id < u64::MAX,
        h.clients.contains(sender),
    ensures
        others(joined(h).clients, sender).contains(h.next_id),
        content_message(joined(published(h, data)).content) == content_message(data),
{
    let k = choose|k: int| 0 <= k < h.clients.len() && h.clients[k] == sender;
    assert(h.clients[k] < h.next_id);
    let c = joined(h).clients;
    assert(c[c.len() - 1] == h.next_id);
    assert(c.contains(h.next_id));
    publish_reaches_exactly_the_others(c, sender);
}

} // verus!
