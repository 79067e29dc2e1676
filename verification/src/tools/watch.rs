//! Non-blocking watches: their ids, their states and how tool calls change
//! them (register, complete in the background, cancel, read, list).

use vstd::prelude::*;
use crate::text::{
    all_digits, decimal, decimal_string, digits_value, is_digit, lemma_decimal_digits, owned,
    push_char, same_text, strip_prefix, strip_prefix_text,
};
use crate::tools::stop::{StopSignal, StopView, fire, new_signal, share_signal};
use crate::tools::{Span, WaitResult, WaitResultView, WaitStatus, result_view};

verus! {

/// Where a non-blocking watch stands.
#[derive(Clone, Copy, PartialEq, Eq, Structural, Debug)]
pub enum WatchStatus {
    /// Still waiting.
    Watching,
    /// The condition was met.
    Fulfilled,
    /// The time limit passed.
    Timeout,
    /// The wait failed.
    Error,
    /// Cancelled on request.
    Cancelled,
}

/// The state that a finished wait leaves its watch in.
pub open spec fn status_after(s: WaitStatus) -> WatchStatus {
    match s {
        WaitStatus::Success => WatchStatus::Fulfilled,
        WaitStatus::Timeout => WatchStatus::Timeout,
        WaitStatus::Error => WatchStatus::Error,
    }
}

/// The name of a status as the debug form of the enum spells it.
pub open spec fn status_name(s: WatchStatus) -> Seq<char> {
    match s {
        WatchStatus::Watching => "Watching"@,
        WatchStatus::Fulfilled => "Fulfilled"@,
        WatchStatus::Timeout => "Timeout"@,
        WatchStatus::Error => "Error"@,
        WatchStatus::Cancelled => "Cancelled"@,
    }
}

/// A non-blocking watch.
pub struct Watch {
    pub id: String,
    pub resource_uri: String,
    pub tool_name: String,
    pub status: WatchStatus,
    pub result: Option<WaitResult>,
    /// Stops the background wait.
    pub cancel: StopSignal,
}

/// The mathematical content of a [`Watch`].
pub struct WatchView {
    pub id: Seq<char>,
    pub resource_uri: Seq<char>,
    pub tool_name: Seq<char>,
    pub status: WatchStatus,
    pub result: Option<WaitResultView>,
    /// The token that stops its background wait.
    pub stop: StopView,
}

/// The content of an optional result.
pub open spec fn opt_result(r: Option<WaitResult>) -> Option<WaitResultView> {
    match r {
        Some(r) => Some(r@),
        None => None,
    }
}

impl View for Watch {
    type V = WatchView;

    open spec fn view(&self) -> WatchView {
        WatchView {
            id: self.id@,
            resource_uri: self.resource_uri@,
            tool_name: self.tool_name@,
            status: self.status,
            result: opt_result(self.result),
            stop: self.cancel@,
        }
    }
}

/// The id of the `n`-th watch, started by tool `tool`: `<tool>-<n>`.
pub open spec fn watch_id_text(tool: Seq<char>, n: nat) -> Seq<char> {
    tool + seq!['-'] + decimal(n)
}

/// The resource that shows a watch: `watch://<id>`.
pub open spec fn resource_uri_text(id: Seq<char>) -> Seq<char> {
    "watch://"@ + id
}

/// The run of digits at the end of a text.
pub open spec fn trailing_digits(s: Seq<char>) -> Seq<char>
    decreases s.len(),
{
    if s.len() > 0 && is_digit(s.last()) {
        trailing_digits(s.drop_last()).push(s.last())
    } else {
        Seq::empty()
    }
}

/// The number at the end of a watch id.
pub open spec fn id_number(id: Seq<char>) -> nat {
    digits_value(trailing_digits(id))
}

/// The result that a cancelled watch holds.
pub open spec fn cancelled_result() -> WaitResultView {
    result_view(WaitStatus::Error, Span { secs: 0, nanos: 0 }, Some("Cancelled by user"@))
}

/// The answer to a cancel request for a known watch.
#[derive(Debug)]
pub enum CancelReply {
    /// The watch was still waiting and is now cancelled.
    Cancelled { watch_id: String },
    /// The watch had already ended, in the given state.
    AlreadyCompleted { watch_id: String, status: WatchStatus },
}

/// The mathematical content of a [`CancelReply`].
pub enum CancelReplyView {
    Cancelled { watch_id: Seq<char> },
    AlreadyCompleted { watch_id: Seq<char>, status: WatchStatus },
}

impl View for CancelReply {
    type V = CancelReplyView;

    open spec fn view(&self) -> CancelReplyView {
        match self {
            CancelReply::Cancelled { watch_id } => CancelReplyView::Cancelled { watch_id: watch_id@ },
            CancelReply::AlreadyCompleted { watch_id, status } => CancelReplyView::AlreadyCompleted {
                watch_id: watch_id@,
                status: *status,
            },
        }
    }
}

/// What a new non-blocking watch is announced with.
pub struct WatchTicket {
    pub watch_id: String,
    pub resource: String,
    pub status: WatchStatus,
    /// A handle on the token of the watch, for the background wait.
    pub cancel: StopSignal,
}

/// One entry of the resource listing.
#[derive(Debug)]
pub struct ResourceEntry {
    pub uri: String,
    pub name: String,
    pub description: String,
}

/// The description of a watch in the resource listing:
/// `Watch <id> (<tool>): <status>`.
pub open spec fn description_text(w: WatchView) -> Seq<char> {
    "Watch "@ + w.id + " ("@ + w.tool_name + "): "@ + status_name(w.status)
}

/// The watches and the counter that numbers them.
pub struct ServerState {
    pub watches: Seq<WatchView>,
    pub next_id: u64,
}

impl ServerState {
    /// Ids are distinct, each ends in a number below the counter, which
    /// starts at 1; each watch is shown at `watch://<id>`; a watch holds a
    /// result exactly when it is no longer waiting; a cancelled watch has
    /// had its token fired.
    pub open spec fn wf(self) -> bool {
        &&& self.next_id >= 1
        &&& forall|i: int| 0 <= i < self.watches.len() ==> id_number(#[trigger] self.watches[i].id) < self.next_id
        &&& forall|i: int| 0 <= i < self.watches.len() ==> #[trigger] self.watches[i].resource_uri == resource_uri_text(self.watches[i].id)
        &&& forall|i: int| 0 <= i < self.watches.len() ==> ((#[trigger] self.watches[i].result is None) <==> self.watches[i].status == WatchStatus::Watching)
        &&& forall|i: int| 0 <= i < self.watches.len() && #[trigger] self.watches[i].status == WatchStatus::Cancelled ==> self.watches[i].stop.fired
        &&& forall|i: int, j: int|
            0 <= i < self.watches.len() && 0 <= j < self.watches.len() && i != j
                ==> #[trigger] self.watches[i].id != #[trigger] self.watches[j].id
    }

    /// Whether some watch has this id.
    pub open spec fn has(self, id: Seq<char>) -> bool {
        exists|i: int| 0 <= i < self.watches.len() && #[trigger] self.watches[i].id == id
    }

    /// The position of the watch with this id.
    pub open spec fn find(self, id: Seq<char>) -> Option<int> {
        if self.has(id) {
            Some(choose|i: int| 0 <= i < self.watches.len() && #[trigger] self.watches[i].id == id)
        } else {
            None
        }
    }

    /// After a new watch for tool `tool`, stopped by the token with identity
    /// `stop`: it is appended, waiting, with the next number and a token not
    /// fired, and the counter moves on.
    pub open spec fn registered(self, tool: Seq<char>, stop: int) -> ServerState {
        let id = watch_id_text(tool, self.next_id as nat);
        ServerState {
            watches: self.watches.push(
                WatchView {
                    id: id,
                    resource_uri: resource_uri_text(id),
                    tool_name: tool,
                    status: WatchStatus::Watching,
                    result: None,
                    stop: StopView { id: stop, fired: false },
                },
            ),
            next_id: (self.next_id + 1) as u64,
        }
    }

    /// After the background wait of watch `id` ended with `r`: a watch still
    /// waiting takes the matching state and keeps the result; anything else
    /// is left as it is.
    pub open spec fn completed(self, id: Seq<char>, r: WaitResultView) -> ServerState {
        match self.find(id) {
            Some(i) => if self.watches[i].status == WatchStatus::Watching {
                ServerState {
                    watches: self.watches.update(
                        i,
                        WatchView { status: status_after(r.status), result: Some(r), ..self.watches[i] },
                    ),
                    next_id: self.next_id,
                }
            } else {
                self
            },
            None => self,
        }
    }

    /// After a cancel request for watch `id`: a watch still waiting has its
    /// token fired and becomes cancelled, holding an error result; anything
    /// else is left as it is.
    pub open spec fn cancelled(self, id: Seq<char>) -> ServerState {
        match self.find(id) {
            Some(i) => if self.watches[i].status == WatchStatus::Watching {
                ServerState {
                    watches: self.watches.update(
                        i,
                        WatchView {
                            status: WatchStatus::Cancelled,
                            result: Some(cancelled_result()),
                            stop: StopView { id: self.watches[i].stop.id, fired: true },
                            ..self.watches[i]
                        },
                    ),
                    next_id: self.next_id,
                }
            } else {
                self
            },
            None => self,
        }
    }

    /// The watch that a resource uri names: `watch://` followed by its id.
    pub open spec fn read_index(self, uri: Seq<char>) -> Option<int> {
        match strip_prefix_text(uri, "watch://"@) {
            Some(id) => self.find(id),
            None => None,
        }
    }
}

proof fn lemma_trailing_digits_after_dash(p: Seq<char>, d: Seq<char>)
    requires
        all_digits(d),
    ensures
        trailing_digits(p + seq!['-'] + d) == d,
    decreases d.len(),
{
    let s = p + seq!['-'] + d;
    if d.len() == 0 {
        assert(s.last() == '-');
    } else {
        assert(is_digit(d[d.len() - 1]));
        assert(s.last() == d.last());
        assert(s.drop_last() =~= p + seq!['-'] + d.drop_last());
        assert(all_digits(d.drop_last())) by {
            assert forall|k: int| 0 <= k < d.drop_last().len() implies is_digit(#[trigger] d.drop_last()[k]) by {
                assert(d.drop_last()[k] == d[k]);
            }
        }
        lemma_trailing_digits_after_dash(p, d.drop_last());
        assert(d.drop_last().push(d.last()) =~= d);
    }
}

proof fn lemma_id_number(tool: Seq<char>, n: nat)
    ensures
        id_number(watch_id_text(tool, n)) == n,
{
    lemma_decimal_digits(n);
    lemma_trailing_digits_after_dash(tool, decimal(n));
}

proof fn lemma_find_unique(s: ServerState, i: int)
    requires
        s.wf(),
        0 <= i < s.watches.len(),
    ensures
        s.find(s.watches[i].id) == Some(i),
{
    assert(s.has(s.watches[i].id));
}

/// Registering a watch keeps the watches well formed: ids distinct and
/// below the counter, uris matching ids, results exactly on ended watches.
pub proof fn law_registration_keeps_wf(s: ServerState, tool: Seq<char>, stop: int)
    requires
        s.wf(),
        s.next_id < u64::MAX,
    ensures
        s.registered(tool, stop).wf(),
{
    let t = s.registered(tool, stop);
    let n = s.watches.len();
    lemma_id_number(tool, s.next_id as nat);
    assert forall|i: int, j: int|
        0 <= i < t.watches.len() && 0 <= j < t.watches.len() && i != j
            implies #[trigger] t.watches[i].id != #[trigger] t.watches[j].id by {
        if i == n {
            assert(id_number(t.watches[j].id) < s.next_id);
        } else if j == n {
            assert(id_number(t.watches[i].id) < s.next_id);
        } else {
            assert(t.watches[i] == s.watches[i]);
            assert(t.watches[j] == s.watches[j]);
        }
    }
    assert forall|i: int| 0 <= i < t.watches.len() implies id_number(#[trigger] t.watches[i].id) < t.next_id by {
        if i < n {
            assert(t.watches[i] == s.watches[i]);
        }
    }
    assert forall|i: int| 0 <= i < t.watches.len() implies #[trigger] t.watches[i].resource_uri == resource_uri_text(t.watches[i].id) by {
        if i < n {
            assert(t.watches[i] == s.watches[i]);
        }
    }
    assert forall|i: int| 0 <= i < t.watches.len() implies ((#[trigger] t.watches[i].result is None) <==> t.watches[i].status == WatchStatus::Watching) by {
        if i < n {
            assert(t.watches[i] == s.watches[i]);
        }
    }
    assert forall|i: int| 0 <= i < t.watches.len() && #[trigger] t.watches[i].status == WatchStatus::Cancelled implies t.watches[i].stop.fired by {
        if i < n {
            assert(t.watches[i] == s.watches[i]);
        }
    }
}

/// Completing or cancelling a watch keeps the watches well formed.
pub proof fn law_updates_keep_wf(s: ServerState, id: Seq<char>, r: WaitResultView)
    requires
        s.wf(),
    ensures
        s.completed(id, r).wf(),
        s.cancelled(id).wf(),
{
    if let Some(i) = s.find(id) {
        let c = s.completed(id, r);
        let k = s.cancelled(id);
        assert forall|a: int| 0 <= a < s.watches.len() implies c.watches[a].id == s.watches[a].id
            && k.watches[a].id == s.watches[a].id by {}
        assert forall|a: int, b: int|
            0 <= a < c.watches.len() && 0 <= b < c.watches.len() && a != b
                implies #[trigger] c.watches[a].id != #[trigger] c.watches[b].id by {
            assert(s.watches[a].id != s.watches[b].id);
        }
        assert forall|a: int, b: int|
            0 <= a < k.watches.len() && 0 <= b < k.watches.len() && a != b
                implies #[trigger] k.watches[a].id != #[trigger] k.watches[b].id by {
            assert(s.watches[a].id != s.watches[b].id);
        }
        assert forall|a: int| 0 <= a < c.watches.len() implies id_number(#[trigger] c.watches[a].id) < c.next_id by {
            assert(id_number(s.watches[a].id) < s.next_id);
        }
        assert forall|a: int| 0 <= a < k.watches.len() implies id_number(#[trigger] k.watches[a].id) < k.next_id by {
            assert(id_number(s.watches[a].id) < s.next_id);
        }
        assert forall|a: int| 0 <= a < c.watches.len() implies #[trigger] c.watches[a].resource_uri == resource_uri_text(c.watches[a].id) by {
            assert(s.watches[a].resource_uri == resource_uri_text(s.watches[a].id));
        }
        assert forall|a: int| 0 <= a < k.watches.len() implies #[trigger] k.watches[a].resource_uri == resource_uri_text(k.watches[a].id) by {
            assert(s.watches[a].resource_uri == resource_uri_text(s.watches[a].id));
        }
        assert forall|a: int| 0 <= a < c.watches.len() implies ((#[trigger] c.watches[a].result is None) <==> c.watches[a].status == WatchStatus::Watching) by {
            assert((s.watches[a].result is None) <==> s.watches[a].status == WatchStatus::Watching);
        }
        assert forall|a: int| 0 <= a < k.watches.len() implies ((#[trigger] k.watches[a].result is None) <==> k.watches[a].status == WatchStatus::Watching) by {
            assert((s.watches[a].result is None) <==> s.watches[a].status == WatchStatus::Watching);
        }
        assert forall|a: int| 0 <= a < c.watches.len() && #[trigger] c.watches[a].status == WatchStatus::Cancelled implies c.watches[a].stop.fired by {
            assert(s.watches[a].status == WatchStatus::Cancelled ==> s.watches[a].stop.fired);
        }
        assert forall|a: int| 0 <= a < k.watches.len() && #[trigger] k.watches[a].status == WatchStatus::Cancelled implies k.watches[a].stop.fired by {
            assert(s.watches[a].status == WatchStatus::Cancelled ==> s.watches[a].stop.fired);
        }
    }
}


fn status_for(s: WaitStatus) -> (w: WatchStatus)
    ensures
        w == status_after(s),
{
    match s {
        WaitStatus::Success => WatchStatus::Fulfilled,
        WaitStatus::Timeout => WatchStatus::Timeout,
        WaitStatus::Error => WatchStatus::Error,
    }
}

fn status_text(s: WatchStatus) -> (t: String)
    ensures
        t@ == status_name(s),
{
    match s {
        WatchStatus::Watching => owned("Watching"),
        WatchStatus::Fulfilled => owned("Fulfilled"),
        WatchStatus::Timeout => owned("Timeout"),
        WatchStatus::Error => owned("Error"),
        WatchStatus::Cancelled => owned("Cancelled"),
    }
}

/// The watches of a server and the counter that numbers them.
pub struct NotifyServer {
    watches: Vec<Watch>,
    next_id: u64,
}

impl View for NotifyServer {
    type V = ServerState;

    closed spec fn view(&self) -> ServerState {
        ServerState { watches: self.watches@.map_values(|w: Watch| w@), next_id: self.next_id }
    }
}

impl NotifyServer {
    /// Ids are distinct, each ends in a number below the counter.
    pub open spec fn wf(&self) -> bool {
        self@.wf()
    }

    /// A server without watches, whose first watch gets number 1.
    pub fn new() -> (s: NotifyServer)
        ensures
            s@.watches == Seq::<WatchView>::empty(),
            s@.next_id == 1,
            s.wf(),
    {
        let s = NotifyServer { watches: Vec::new(), next_id: 1 };
        assert(s@.watches =~= Seq::<WatchView>::empty());
        s
    }

    /// The number that the next watch gets.
    pub fn next_number(&self) -> (n: u64)
        ensures
            n == self@.next_id,
    {
        self.next_id
    }

    fn position(&self, id: &str) -> (r: Option<usize>)
        requires
            self.wf(),
        ensures
            r is Some <==> self@.find(id@) is Some,
            r matches Some(i) ==> self@.find(id@) == Some(i as int),
    {
        let n = self.watches.len();
        for i in 0..n
            invariant
                n == self@.watches.len(),
                self.wf(),
                forall|k: int| 0 <= k < i ==> self@.watches[k].id != id@,
        {
            if same_text(self.watches[i].id.as_str(), id) {
                proof {
                    lemma_find_unique(self@, i as int);
                }
                return Some(i);
            }
        }
        None
    }

    /// Takes the next watch id, `<tool_name>-<n>` with `n` the counter, and
    /// moves the counter on.
    pub fn generate_watch_id(&mut self, tool_name: &str) -> (id: String)
        requires
            old(self).wf(),
            old(self)@.next_id < u64::MAX,
        ensures
            id@ == watch_id_text(tool_name@, old(self)@.next_id as nat),
            final(self)@.watches == old(self)@.watches,
            final(self)@.next_id == old(self)@.next_id + 1,
            final(self).wf(),
    {
        let n = self.next_id;
        let mut id = owned(tool_name);
        push_char(&mut id, '-');
        let digits = decimal_string(n);
        id.append(digits.as_str());
        self.next_id = n + 1;
        assert(id@ =~= watch_id_text(tool_name@, n as nat));
        proof {
            let s = final(self)@;
            assert forall|i: int| 0 <= i < s.watches.len() implies id_number(#[trigger] s.watches[i].id) < s.next_id by {
                assert(id_number(old(self)@.watches[i].id) < old(self)@.next_id);
            }
        }
        id
    }

    /// Starts a non-blocking watch for tool `tool_name`: it gets the next
    /// id, the resource `watch://<id>` and a new cancellation token, and is
    /// appended, waiting and without result. The ticket holds a handle on
    /// that same token, for the background wait.
    pub fn register_watch(&mut self, tool_name: &str) -> (t: WatchTicket)
        requires
            old(self).wf(),
            old(self)@.next_id < u64::MAX,
        ensures
            final(self)@ == old(self)@.registered(tool_name@, t.cancel@.id),
            !t.cancel@.fired,
            t.watch_id@ == watch_id_text(tool_name@, old(self)@.next_id as nat),
            t.resource@ == resource_uri_text(t.watch_id@),
            t.status == WatchStatus::Watching,
            final(self).wf(),
    {
        let ghost before = self@;
        let id = self.generate_watch_id(tool_name);
        let mut uri = owned("watch://");
        uri.append(id.as_str());
        let token = new_signal();
        let handle = share_signal(&token);
        let w = Watch {
            id: owned(id.as_str()),
            resource_uri: owned(uri.as_str()),
            tool_name: owned(tool_name),
            status: WatchStatus::Watching,
            result: None,
            cancel: token,
        };
        self.watches.push(w);
        proof {
            law_registration_keeps_wf(before, tool_name@, handle@.id);
            assert(self@.watches =~= before.registered(tool_name@, handle@.id).watches);
        }
        WatchTicket { watch_id: id, resource: uri, status: WatchStatus::Watching, cancel: handle }
    }

    /// Records that the background wait of watch `watch_id` ended with
    /// `result`. Only a watch still waiting changes: it takes the matching
    /// state (fulfilled, timeout or error) and keeps the result. Tells
    /// whether it changed.
    pub fn complete_watch(&mut self, watch_id: &str, result: WaitResult) -> (changed: bool)
        requires
            old(self).wf(),
        ensures
            final(self)@ == old(self)@.completed(watch_id@, result@),
            changed == (old(self)@.find(watch_id@) matches Some(i)
                && old(self)@.watches[i].status == WatchStatus::Watching),
            final(self).wf(),
    {
        let ghost before = self@;
        let ghost r = result@;
        proof {
            law_updates_keep_wf(before, watch_id@, r);
        }
        match self.position(watch_id) {
            Some(i) => {
                if self.watches[i].status == WatchStatus::Watching {
                    let st = status_for(result.status);
                    self.watches[i].status = st;
                    self.watches[i].result = Some(result);
                    proof {
                        assert(self@.watches =~= before.completed(watch_id@, r).watches);
                    }
                    true
                } else {
                    false
                }
            },
            None => false,
        }
    }

    /// Cancels watch `watch_id`. A watch still waiting has its token
    /// cancelled, becomes cancelled and holds an error result; the reply
    /// says so. A watch that had already ended is left as it is and the
    /// reply gives its state. An unknown id is refused with a message.
    pub fn cancel_watch(&mut self, watch_id: &str) -> (r: Result<CancelReply, String>)
        requires
            old(self).wf(),
        ensures
            final(self)@ == old(self)@.cancelled(watch_id@),
            final(self).wf(),
            ({
                let i = old(self)@.find(watch_id@)->0;
                old(self)@.find(watch_id@) is Some && old(self)@.watches[i].status == WatchStatus::Watching
                    ==> final(self)@.watches[i].stop == (StopView { id: old(self)@.watches[i].stop.id, fired: true })
            }),
            match old(self)@.find(watch_id@) {
                Some(i) => if old(self)@.watches[i].status == WatchStatus::Watching {
                    r matches Ok(reply) && reply@ == CancelReplyView::Cancelled { watch_id: watch_id@ }
                } else {
                    r matches Ok(reply) && reply@ == CancelReplyView::AlreadyCompleted {
                        watch_id: watch_id@,
                        status: old(self)@.watches[i].status,
                    }
                },
                None => r matches Err(msg) && msg@ == "No watch found with id '"@ + watch_id@ + "'"@,
            },
    {
        let ghost before = self@;
        proof {
            law_updates_keep_wf(before, watch_id@, cancelled_result());
        }
        match self.position(watch_id) {
            Some(i) => {
                if self.watches[i].status == WatchStatus::Watching {
                    fire(&mut self.watches[i].cancel);
                    let detail = owned("Cancelled by user");
                    let res = WaitResult::error(Span::zero(), Some(detail));
                    self.watches[i].status = WatchStatus::Cancelled;
                    self.watches[i].result = Some(res);
                    proof {
                        assert(self@.watches =~= before.cancelled(watch_id@).watches);
                    }
                    Ok(CancelReply::Cancelled { watch_id: owned(watch_id) })
                } else {
                    let st = self.watches[i].status;
                    Ok(CancelReply::AlreadyCompleted { watch_id: owned(watch_id), status: st })
                }
            },
            None => {
                let mut msg = owned("No watch found with id '");
                msg.append(watch_id);
                msg.append("'");
                Err(msg)
            },
        }
    }

    /// The watch that resource `uri` shows. A uri that does not begin with
    /// `watch://` is refused, as is one naming no watch; the message says
    /// which.
    pub fn read_resource(&self, uri: &str) -> (r: Result<&Watch, String>)
        requires
            self.wf(),
        ensures
            match strip_prefix_text(uri@, "watch://"@) {
                None => r matches Err(msg) && msg@ == "Invalid watch URI: "@ + uri@,
                Some(id) => match self@.find(id) {
                    Some(i) => r matches Ok(w) && w@ == self@.watches[i],
                    None => r matches Err(msg) && msg@ == "No watch found: "@ + id,
                },
            },
    {
        match strip_prefix(uri, "watch://") {
            None => {
                let mut msg = owned("Invalid watch URI: ");
                msg.append(uri);
                Err(msg)
            },
            Some(id) => match self.position(id.as_str()) {
                Some(i) => Ok(&self.watches[i]),
                None => {
                    let mut msg = owned("No watch found: ");
                    msg.append(id.as_str());
                    Err(msg)
                },
            },
        }
    }

    /// One entry per watch, waiting or ended, in the order they were
    /// started: its resource uri, its id as name, and a description.
    pub fn list_resources(&self) -> (entries: Vec<ResourceEntry>)
        ensures
            entries@.len() == self@.watches.len(),
            forall|i: int| 0 <= i < entries@.len() ==> {
                &&& (#[trigger] entries@[i]).uri@ == self@.watches[i].resource_uri
                &&& entries@[i].name@ == self@.watches[i].id
                &&& entries@[i].description@ == description_text(self@.watches[i])
            },
    {
        let mut entries: Vec<ResourceEntry> = Vec::new();
        let n = self.watches.len();
        for i in 0..n
            invariant
                n == self@.watches.len(),
                entries@.len() == i,
                forall|k: int| 0 <= k < i ==> {
                    &&& (#[trigger] entries@[k]).uri@ == self@.watches[k].resource_uri
                    &&& entries@[k].name@ == self@.watches[k].id
                    &&& entries@[k].description@ == description_text(self@.watches[k])
                },
        {
            let w = &self.watches[i];
            let mut d = owned("Watch ");
            d.append(w.id.as_str());
            d.append(" (");
            d.append(w.tool_name.as_str());
            d.append("): ");
            let st = status_text(w.status);
            d.append(st.as_str());
            entries.push(ResourceEntry {
                uri: owned(w.resource_uri.as_str()),
                name: owned(w.id.as_str()),
                description: d,
            });
        }
        entries
    }
}


/// A watch that was just started can be read back at its resource
/// `watch://<id>`: it is the last watch, waiting, without result, and its
/// token (the one the ticket shares) not fired.
pub proof fn law_registered_watch_is_readable(s: ServerState, tool: Seq<char>, stop: int)
    requires
        s.wf(),
        s.next_id < u64::MAX,
    ensures
        ({
            let t = s.registered(tool, stop);
            let id = watch_id_text(tool, s.next_id as nat);
            &&& t.read_index(resource_uri_text(id)) == Some(s.watches.len() as int)
            &&& t.watches[s.watches.len() as int].id == id
            &&& t.watches[s.watches.len() as int].status == WatchStatus::Watching
            &&& t.watches[s.watches.len() as int].result is None
            &&& t.watches[s.watches.len() as int].stop == (StopView { id: stop, fired: false })
        }),
{
    let t = s.registered(tool, stop);
    law_registration_keeps_wf(s, tool, stop);
    law_listed_resources_read_back(t);
    assert(t.read_index(t.watches[s.watches.len() as int].resource_uri) == Some(s.watches.len() as int));
}

/// Every resource uri of the listing reads back the watch it lists.
pub proof fn law_listed_resources_read_back(s: ServerState)
    requires
        s.wf(),
    ensures
        forall|i: int| 0 <= i < s.watches.len() ==> s.read_index(#[trigger] s.watches[i].resource_uri) == Some(i),
{
    assert forall|i: int| 0 <= i < s.watches.len() implies s.read_index(#[trigger] s.watches[i].resource_uri) == Some(i) by {
        let id = s.watches[i].id;
        let uri = resource_uri_text(id);
        assert(uri.take(("watch://"@).len() as int) =~= "watch://"@);
        assert(uri.skip(("watch://"@).len() as int) =~= id);
        lemma_find_unique(s, i);
    }
}

/// Cancelling a watch that was just started fires the token whose
/// identity its ticket shares.
pub proof fn law_cancel_fires_ticket_token(s: ServerState, tool: Seq<char>, stop: int)
    requires
        s.wf(),
        s.next_id < u64::MAX,
    ensures
        ({
            let t = s.registered(tool, stop);
            let c = t.cancelled(watch_id_text(tool, s.next_id as nat));
            &&& c.watches[s.watches.len() as int].stop == (StopView { id: stop, fired: true })
            &&& c.watches[s.watches.len() as int].status == WatchStatus::Cancelled
        }),
{
    let t = s.registered(tool, stop);
    law_registration_keeps_wf(s, tool, stop);
    lemma_find_unique(t, s.watches.len() as int);
}

/// The state after starting one watch per tool of `tools` in turn, the
/// `k`-th stopped by the token with identity `stops[k]`.
pub open spec fn registered_all(s: ServerState, tools: Seq<Seq<char>>, stops: Seq<int>) -> ServerState
    decreases tools.len(),
{
    if tools.len() == 0 {
        s
    } else {
        registered_all(s, tools.drop_last(), stops.drop_last()).registered(tools.last(), stops.last())
    }
}

/// Watches started one after another get the numbers `n`, `n + 1`, ... in
/// turn, from the counter `n`; their ids never repeat (the state stays
/// well formed), and the watches already there are untouched.
pub proof fn law_watch_ids_count_up(s: ServerState, tools: Seq<Seq<char>>, stops: Seq<int>)
    requires
        s.wf(),
        stops.len() == tools.len(),
        s.next_id + tools.len() < u64::MAX,
    ensures
        ({
            let t = registered_all(s, tools, stops);
            &&& t.wf()
            &&& t.next_id == s.next_id + tools.len()
            &&& t.watches.len() == s.watches.len() + tools.len()
            &&& forall|i: int| 0 <= i < s.watches.len() ==> t.watches[i] == s.watches[i]
            &&& forall|k: int| 0 <= k < tools.len() ==> {
                &&& (#[trigger] t.watches[s.watches.len() + k]).id == watch_id_text(tools[k], (s.next_id + k) as nat)
                &&& id_number(t.watches[s.watches.len() + k].id) == s.next_id + k
                &&& t.watches[s.watches.len() + k].status == WatchStatus::Watching
                &&& t.watches[s.watches.len() + k].stop == (StopView { id: stops[k], fired: false })
            }
        }),
    decreases tools.len(),
{
    if tools.len() > 0 {
        let m = (tools.len() - 1) as int;
        let tp = tools.drop_last();
        let sp = stops.drop_last();
        law_watch_ids_count_up(s, tp, sp);
        let u = registered_all(s, tp, sp);
        law_registration_keeps_wf(u, tools.last(), stops.last());
        lemma_id_number(tools.last(), u.next_id as nat);
        let t = registered_all(s, tools, stops);
        assert forall|k: int| 0 <= k < tools.len() implies {
            &&& (#[trigger] t.watches[s.watches.len() + k]).id == watch_id_text(tools[k], (s.next_id + k) as nat)
            &&& id_number(t.watches[s.watches.len() + k].id) == s.next_id + k
            &&& t.watches[s.watches.len() + k].status == WatchStatus::Watching
            &&& t.watches[s.watches.len() + k].stop == (StopView { id: stops[k], fired: false })
        } by {
            if k < m {
                assert(t.watches[s.watches.len() + k] == u.watches[s.watches.len() + k]);
                assert(tp[k] == tools[k]);
                assert(sp[k] == stops[k]);
            }
        }
    }
}

/// A watch that has ended (fulfilled, timed out, failed or cancelled) no
/// longer changes: neither a late completion nor a cancel request touches
/// anything.
pub proof fn law_ended_watch_is_final(s: ServerState, id: Seq<char>, r: WaitResultView)
    requires
        s.wf(),
        s.find(id) matches Some(i) && s.watches[i].status != WatchStatus::Watching,
    ensures
        s.completed(id, r) == s,
        s.cancelled(id) == s,
{
}

/// Cancelling a waiting watch makes it cancelled with the cancellation
/// error, and the result that its background wait delivers afterwards is
/// ignored.
pub proof fn law_cancel_wins_over_late_result(s: ServerState, id: Seq<char>, r: WaitResultView)
    requires
        s.wf(),
        s.find(id) matches Some(i) && s.watches[i].status == WatchStatus::Watching,
    ensures
        ({
            let c = s.cancelled(id);
            let i = s.find(id)->0;
            &&& c.watches[i].status == WatchStatus::Cancelled
            &&& c.watches[i].result == Some(cancelled_result())
            &&& c.completed(id, r) == c
        }),
{
    let i = s.find(id)->0;
    let c = s.cancelled(id);
    law_updates_keep_wf(s, id, r);
    lemma_find_unique(c, i);
}

/// A waiting watch whose wait ends takes the state that matches the
/// outcome (success: fulfilled, timeout: timeout, error: error) and keeps
/// the result; every other watch stays as it was.
pub proof fn law_completion_records_outcome(s: ServerState, id: Seq<char>, r: WaitResultView)
    requires
        s.wf(),
        s.find(id) matches Some(i) && s.watches[i].status == WatchStatus::Watching,
    ensures
        ({
            let c = s.completed(id, r);
            let i = s.find(id)->0;
            &&& c.watches.len() == s.watches.len()
            &&& c.watches[i].id == id
            &&& c.watches[i].status == status_after(r.status)
            &&& c.watches[i].result == Some(r)
            &&& forall|j: int| 0 <= j < s.watches.len() && j != i ==> c.watches[j] == s.watches[j]
        }),
{
}

/// Cancelling one watch leaves every other watch as it was.
pub proof fn law_cancel_touches_one_watch(s: ServerState, id: Seq<char>)
    requires
        s.wf(),
    ensures
        s.cancelled(id).watches.len() == s.watches.len(),
        forall|j: int| 0 <= j < s.watches.len() && s.watches[j].id != id ==> s.cancelled(id).watches[j] == s.watches[j],
{
}


/// A finished wait leaves its watch fulfilled on success, timed out on a
/// timeout and in error on an error; never still waiting, never cancelled.
pub proof fn law_outcome_states(s: WaitStatus)
    ensures
        status_after(WaitStatus::Success) == WatchStatus::Fulfilled,
        status_after(WaitStatus::Timeout) == WatchStatus::Timeout,
        status_after(WaitStatus::Error) == WatchStatus::Error,
        status_after(s) != WatchStatus::Watching,
        status_after(s) != WatchStatus::Cancelled,
        cancelled_result() == result_view(WaitStatus::Error, Span { secs: 0, nanos: 0 }, Some("Cancelled by user"@)),
{
}

} // verus!
