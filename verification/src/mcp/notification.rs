//! Notifications that tools send while they run, and the queue that holds
//! them until the response to the request has been written.

use vstd::prelude::*;
use vstd::string::*;
use crate::mcp::json::{Json, JsonV, ObjectBuilder};
use crate::mcp::types::{
    JsonRpcId, JsonRpcNotification, MessageLevel, MessageNotification, ProgressNotification,
};
use crate::text::decimal;

verus! {

/// The value of an optional JSON value.
pub open spec fn opt_view(o: Option<Json>) -> Option<JsonV> {
    match o {
        Some(j) => Some(j@),
        None => None,
    }
}

/// What a notification says: its protocol version, its method and its
/// parameters.
pub open spec fn notification_view(n: JsonRpcNotification) -> (Seq<char>, Seq<char>, Option<JsonV>) {
    (n.jsonrpc@, n.method@, opt_view(n.params))
}

impl MessageNotification {
    /// The notification's parameters on the wire.
    pub open spec fn wire(&self) -> JsonV {
        let head = seq![("level"@, JsonV::Str(self.level.wire_name()))];
        let with_logger = match self.logger {
            Some(l) => head.push(("logger"@, JsonV::Str(l@))),
            None => head,
        };
        JsonV::Object(with_logger.push(("data"@, self.data@)))
    }

    /// The notification's parameters on the wire.
    pub fn to_json(self) -> (r: Json)
        ensures
            r@ == self.wire(),
    {
        let mut b = ObjectBuilder::new();
        b.put("level", Json::text(self.level.name()));
        match self.logger {
            Some(l) => b.put("logger", Json::Str(l)),
            None => {},
        }
        b.put("data", self.data);
        let r = b.build();
        assert(r@ =~= self.wire());
        r
    }
}

impl ProgressNotification {
    /// The members of the notification's parameters on the wire.
    pub open spec fn wire_members(&self) -> Seq<(Seq<char>, JsonV)> {
        let head = seq![
            ("progressToken"@, JsonV::Str(self.progress_token@)),
            ("progress"@, JsonV::Number(decimal(self.progress as nat))),
            ("total"@, JsonV::Number(decimal(self.total as nat))),
        ];
        match self.message {
            Some(m) => head.push(("message"@, JsonV::Str(m@))),
            None => head,
        }
    }

    /// The notification's parameters on the wire.
    pub open spec fn wire(&self) -> JsonV {
        JsonV::Object(self.wire_members())
    }

    /// The notification's parameters on the wire.
    pub fn to_json(self) -> (r: Json)
        ensures
            r@ == self.wire(),
    {
        let mut b = ObjectBuilder::new();
        b.put("progressToken", Json::Str(self.progress_token));
        b.put("progress", Json::unsigned(self.progress));
        b.put("total", Json::unsigned(self.total));
        let ghost orig = self;
        match self.message {
            Some(m) => b.put("message", Json::Str(m)),
            None => {},
        }
        assert(b.value() =~= orig.wire_members());
        b.build()
    }
}

/// A notification with the given method and parameters.
pub fn notification(method: &str, params: Option<Json>) -> (n: JsonRpcNotification)
    ensures
        notification_view(n) == ("2.0"@, method@, opt_view(params)),
{
    JsonRpcNotification {
        jsonrpc: String::from_str("2.0"),
        method: String::from_str(method),
        params,
    }
}

/// Holds the notifications a tool sends until they are taken.
pub struct QueuedNotificationSender {
    pub queue: Vec<JsonRpcNotification>,
}

impl QueuedNotificationSender {
    /// What the queue holds, oldest first.
    pub open spec fn contents(&self) -> Seq<(Seq<char>, Seq<char>, Option<JsonV>)> {
        self.queue@.map_values(|n: JsonRpcNotification| notification_view(n))
    }

    /// An empty queue.
    pub fn new() -> (q: Self)
        ensures
            q.contents() == Seq::<(Seq<char>, Seq<char>, Option<JsonV>)>::empty(),
    {
        let q = QueuedNotificationSender { queue: Vec::new() };
        assert(q.contents() =~= Seq::<(Seq<char>, Seq<char>, Option<JsonV>)>::empty());
        q
    }

    fn enqueue(&mut self, n: JsonRpcNotification)
        ensures
            final(self).contents() == old(self).contents().push(notification_view(n)),
    {
        self.queue.push(n);
        assert(self.contents() =~= old(self).contents().push(notification_view(n)));
    }

    /// Queues a `notifications/message` notification.
    pub fn send_message(&mut self, message: MessageNotification)
        ensures
            final(self).contents() == old(self).contents().push(
                ("2.0"@, "notifications/message"@, Some(message.wire())),
            ),
    {
        let n = notification("notifications/message", Some(message.to_json()));
        self.enqueue(n);
    }

    /// Queues a `notifications/progress` notification.
    pub fn send_progress(&mut self, progress: ProgressNotification)
        ensures
            final(self).contents() == old(self).contents().push(
                ("2.0"@, "notifications/progress"@, Some(progress.wire())),
            ),
    {
        let n = notification("notifications/progress", Some(progress.to_json()));
        self.enqueue(n);
    }

    /// Queues a notification with any method and parameters.
    pub fn send_raw(&mut self, method: String, params: Option<Json>)
        ensures
            final(self).contents() == old(self).contents().push(("2.0"@, method@, opt_view(params))),
    {
        let n = JsonRpcNotification { jsonrpc: String::from_str("2.0"), method, params };
        self.enqueue(n);
    }

    /// Takes everything queued, oldest first, and leaves the queue empty.
    pub fn take_all(&mut self) -> (r: Vec<JsonRpcNotification>)
        ensures
            r@.map_values(|n: JsonRpcNotification| notification_view(n)) == old(self).contents(),
            final(self).contents() == Seq::<(Seq<char>, Seq<char>, Option<JsonV>)>::empty(),
    {
        let mut r: Vec<JsonRpcNotification> = Vec::new();
        core::mem::swap(&mut r, &mut self.queue);
        assert(self.contents() =~= Seq::<(Seq<char>, Seq<char>, Option<JsonV>)>::empty());
        r
    }
}

/// A queue that went through the sends `sent`, one after another from
/// empty, holds them in the order they were sent.
proof fn lemma_sends_fill_in_order(
    states: Seq<QueuedNotificationSender>,
    sent: Seq<(Seq<char>, Seq<char>, Option<JsonV>)>,
    j: int,
)
    requires
        states.len() == sent.len() + 1,
        states[0].contents() == Seq::<(Seq<char>, Seq<char>, Option<JsonV>)>::empty(),
        forall|i: int|
            0 <= i < sent.len() ==> states[i + 1].contents() == states[i].contents().push(
                #[trigger] sent[i],
            ),
        0 <= j <= sent.len(),
    ensures
        states[j].contents() == sent.take(j),
    decreases j,
{
    if j == 0 {
        assert(sent.take(0) =~= Seq::<(Seq<char>, Seq<char>, Option<JsonV>)>::empty());
    } else {
        lemma_sends_fill_in_order(states, sent, j - 1);
        let last = sent[j - 1];
        assert(sent.take(j) =~= sent.take(j - 1).push(last));
    }
}

/// Law: notifications sent one after another (`send_message`,
/// `send_progress` or `send_raw`, each adding its notification at the end)
/// to a new queue are all given back by `take_all`, in the order they were
/// sent, and a second `take_all` right after gives nothing. `states` are
/// the queue before and after each send, `taken` and `taken_again` what the
/// two takes give, `emptied` the queue between them.
pub proof fn sent_notifications_are_taken_in_order(
    states: Seq<QueuedNotificationSender>,
    sent: Seq<(Seq<char>, Seq<char>, Option<JsonV>)>,
    taken: Seq<JsonRpcNotification>,
    emptied: QueuedNotificationSender,
    taken_again: Seq<JsonRpcNotification>,
)
    requires
        states.len() == sent.len() + 1,
        states[0].contents() == Seq::<(Seq<char>, Seq<char>, Option<JsonV>)>::empty(),
        forall|i: int|
            0 <= i < sent.len() ==> states[i + 1].contents() == states[i].contents().push(
                #[trigger] sent[i],
            ),
        taken.map_values(|n: JsonRpcNotification| notification_view(n)) == states.last().contents(),
        emptied.contents() == Seq::<(Seq<char>, Seq<char>, Option<JsonV>)>::empty(),
        taken_again.map_values(|n: JsonRpcNotification| notification_view(n)) == emptied.contents(),
    ensures
        taken.map_values(|n: JsonRpcNotification| notification_view(n)) == sent,
        taken_again.len() == 0,
{
    lemma_sends_fill_in_order(states, sent, sent.len() as int);
    assert(sent.take(sent.len() as int) =~= sent);
    assert(taken_again.map_values(|n: JsonRpcNotification| notification_view(n)).len() == 0);
}

/// What a running tool knows about the request it serves.
#[derive(Debug)]
pub struct ToolContext {
    /// Progress token, when the request asked for progress reports.
    pub progress_token: Option<String>,
    /// Identifier of the request.
    pub request_id: Option<JsonRpcId>,
}

impl ToolContext {
    /// A context for a request.
    pub fn new(progress_token: Option<String>, request_id: Option<JsonRpcId>) -> (c: Self)
        ensures
            c.progress_token == progress_token,
            c.request_id == request_id,
    {
        ToolContext { progress_token, request_id }
    }

    /// The log notification a tool sends: logger `mcproc`, data
    /// `{"message": message}`.
    pub fn log_notification(&self, level: MessageLevel, message: String) -> (n:
        MessageNotification)
        ensures
            n.level == level,
            n.logger matches Some(l) && l@ == "mcproc"@,
            n.data@ == JsonV::Object(seq![("message"@, JsonV::Str(message@))]),
    {
        let mut b = ObjectBuilder::new();
        b.put("message", Json::Str(message));
        let data = b.build();
        assert(data@ =~= JsonV::Object(seq![("message"@, JsonV::Str(message@))]));
        MessageNotification { level, logger: Some(String::from_str("mcproc")), data }
    }

    /// The progress notification a tool sends, which exists only when the
    /// request carried a progress token.
    pub fn progress_notification(&self, progress: u64, total: u64, message: Option<String>) -> (r:
        Option<ProgressNotification>)
        ensures
            match self.progress_token {
                Some(t) => r matches Some(p) && p.progress_token@ == t@ && p.progress == progress
                    && p.total == total && p.message == message,
                None => r is None,
            },
    {
        match &self.progress_token {
            Some(t) => Some(
                ProgressNotification { progress_token: t.clone(), progress, total, message },
            ),
            None => None,
        }
    }
}

} // verus!
