//! The API client keeps the points it received in a buffer and sends the
//! SQL of each String point, from the first, to the database API; a point
//! leaves the buffer once the API accepted it. The sending itself is done
//! by the caller between the steps below.
use vstd::prelude::*;
use std::sync::mpsc::{Receiver, Sender};
use std::time::Duration;
use crate::channel::{new_channel, sender_clone, try_recv};
use crate::maps::StrMap;
use crate::point::PointType;

verus! {

/// The configuration of the API client.
pub struct ApiClientConfig {
    pub name: String,
    pub rx: String,
    pub rx_max_len: i64,
    pub address: String,
    pub auth_token: String,
    pub database: String,
    pub cycle: Option<Duration>,
    pub debug: bool,
}

/// What the client does with the first point of its buffer.
#[derive(Debug, Clone)]
pub enum ApiAction {
    /// Send this SQL to the API.
    Send(String),
    /// The point is not a String point (a buffer filled by `take_received`
    /// never holds one): it is reported and leaves the buffer (`drop_head`).
    Skip,
}

/// The buffer after one reading of the in-queue: a String message goes to
/// its end; a point of another type is not buffered.
pub open spec fn buffer_received(b: Seq<PointType>, received: Option<PointType>) -> Seq<PointType> {
    match received {
        Some(p) => if p is String { b.push(p) } else { b },
        None => b,
    }
}

/// The buffer after the API answered `reply` to the SQL of its head: a reply
/// without error removes the head; anything else keeps the buffer.
pub open spec fn buffer_accepted(b: Seq<PointType>, reply: Result<bool, String>) -> Seq<PointType> {
    if reply == Ok::<bool, String>(false) && b.len() > 0 { b.remove(0) } else { b }
}

/// The buffer after `n` replies without error.
pub open spec fn buffer_accepted_n(b: Seq<PointType>, n: nat) -> Seq<PointType>
    decreases n,
{
    if n == 0 { b } else { buffer_accepted(buffer_accepted_n(b, (n - 1) as nat), Ok(false)) }
}

/// Every point of the buffer is a String message.
pub open spec fn all_strings(b: Seq<PointType>) -> bool {
    forall|i: int| 0 <= i < b.len() ==> #[trigger] b[i] is String
}

/// The buffer holds String messages only: reading the in-queue and taking
/// the API's replies keep it so.
pub proof fn law_buffer_holds_strings(b: Seq<PointType>, received: Option<PointType>, reply: Result<bool, String>)
    requires
        all_strings(b),
    ensures
        all_strings(buffer_received(b, received)),
        all_strings(buffer_accepted(b, reply)),
{
    let a = buffer_accepted(b, reply);
    if reply == Ok::<bool, String>(false) && b.len() > 0 {
        assert forall|i: int| 0 <= i < a.len() implies #[trigger] a[i] is String by {
            assert(a[i] == b[i + 1]);
        }
    }
}

/// Messages are sent from the beginning of the buffer and leave it once
/// sent: after `n` replies without error the first `n` are gone, so the
/// `k`-th SQL sent is that of the `k`-th message buffered; and a String
/// message received behind `b` is sent once those of `b` were.
pub proof fn law_sent_in_order(b: Seq<PointType>, n: nat, p: PointType)
    requires
        n <= b.len(),
        p is String,
    ensures
        buffer_accepted_n(b, n) == b.subrange(n as int, b.len() as int),
        buffer_accepted_n(buffer_received(b, Some(p)), b.len()) == seq![p],
    decreases n,
{
    if n > 0 {
        law_sent_in_order(b, (n - 1) as nat, p);
        assert(b.subrange(n - 1, b.len() as int).remove(0) =~= b.subrange(n as int, b.len() as int));
    }
    lemma_accepted_n_prefix(b, p, b.len());
    assert(b.push(p).subrange(b.len() as int, (b.len() + 1) as int) =~= seq![p]);
}

/// `buffer_accepted_n` on `b` followed by `p` drops the first `n` of them.
proof fn lemma_accepted_n_prefix(b: Seq<PointType>, p: PointType, n: nat)
    requires
        n <= b.len(),
    ensures
        buffer_accepted_n(b.push(p), n) == b.push(p).subrange(n as int, (b.len() + 1) as int),
    decreases n,
{
    if n > 0 {
        lemma_accepted_n_prefix(b, p, (n - 1) as nat);
        assert(b.push(p).subrange(n - 1, (b.len() + 1) as int).remove(0) =~= b.push(p).subrange(n as int, (b.len() + 1) as int));
    }
}

/// The client: its single in-queue, held by the configured `rx` name.
pub struct ApiClient {
    pub id: String,
    pub name: String,
    pub recv: Vec<Receiver<PointType>>,
    pub send: StrMap<Sender<PointType>>,
    pub conf: ApiClientConfig,
}

impl ApiClient {
    /// Creates a new instance with a new in-queue, linked under `conf.rx`.
    pub fn new(conf: ApiClientConfig) -> (res: Self)
        ensures
            res.id@ == conf.name@,
            res.name@ == conf.name@,
            res.recv.len() == 1,
            res.send.wf(),
            res.send.map().dom() == set![conf.rx@],
            res.conf == conf,
    {
        let (send, recv) = new_channel();
        let mut links: StrMap<Sender<PointType>> = StrMap::new();
        links.insert(conf.rx.as_str().to_owned(), send);
        let id = conf.name.as_str().to_owned();
        let name = conf.name.as_str().to_owned();
        let mut queues: Vec<Receiver<PointType>> = Vec::new();
        queues.push(recv);
        proof {
            assert(links.map().dom() =~= set![conf.rx@]);
        }
        Self { id, name, recv: queues, send: links, conf }
    }

    /// Takes one reading of the in-queue: a String message received goes to
    /// the end of `buffer`, a point of another type is not buffered; returns
    /// whether to read on, which is so exactly when a point came.
    pub fn take_received(buffer: &mut Vec<PointType>, received: Option<PointType>) -> (more: bool)
        ensures
            final(buffer)@ == buffer_received(old(buffer)@, received),
            more == received is Some,
    {
        match received {
            Some(point) => {
                match point {
                    PointType::String(_) => buffer.push(point),
                    _ => {}
                }
                true
            }
            None => false,
        }
    }

    /// Moves all the String messages waiting in the in-queue at the moment
    /// to the end of `buffer`, in their order: it reads (each reading handled by
    /// `take_received`) until the queue gives nothing, or until `usize::MAX`
    /// points were read, which no buffer can hold. What is waiting depends on
    /// the other threads, so which points come is not stated.
    pub fn read_queue(recv: &Receiver<PointType>, buffer: &mut Vec<PointType>)
        ensures
            old(buffer)@.len() <= final(buffer)@.len(),
            final(buffer)@.subrange(0, old(buffer)@.len() as int) == old(buffer)@,
    {
        let ghost before = buffer@;
        let mut index: usize = 0;
        while index < usize::MAX
            invariant
                before.len() <= buffer@.len() <= before.len() + index,
                buffer@.subrange(0, before.len() as int) == before,
                before == old(buffer)@,
            decreases usize::MAX - index,
        {
            let ghost prev = buffer@;
            let more = Self::take_received(buffer, try_recv(recv));
            assert(buffer@.subrange(0, before.len() as int) =~= prev.subrange(0, before.len() as int));
            if !more {
                return;
            }
            index += 1;
        }
    }

    /// What to do with the first point of `buffer`: send the value of a
    /// String point as SQL, skip a point of another type; `None` when the
    /// buffer is empty.
    pub fn head_action(buffer: &Vec<PointType>) -> (res: Option<ApiAction>)
        ensures
            buffer@.len() == 0 <==> res is None,
            buffer@.len() > 0 ==> match buffer@[0] {
                PointType::String(p) => res matches Some(ApiAction::Send(sql)) && sql@ == p.value@,
                _ => res matches Some(ApiAction::Skip),
            },
    {
        if buffer.len() == 0 {
            return None;
        }
        match &buffer[0] {
            PointType::String(p) => Some(ApiAction::Send(p.value.as_str().to_owned())),
            _ => Some(ApiAction::Skip),
        }
    }

    /// Takes the API's answer to the SQL of the first point: `Ok(has_error)`
    /// for a reply, `Err` where none came. The point leaves the buffer
    /// exactly when a reply without error came.
    pub fn accept_reply(buffer: &mut Vec<PointType>, reply: &Result<bool, String>)
        requires
            old(buffer)@.len() > 0,
        ensures
            final(buffer)@ == buffer_accepted(old(buffer)@, *reply),
            *reply == Ok::<bool, String>(false) ==> final(buffer)@ == old(buffer)@.remove(0),
            *reply != Ok::<bool, String>(false) ==> final(buffer)@ == old(buffer)@,
    {
        match reply {
            Ok(has_error) => {
                if !*has_error {
                    buffer.remove(0);
                }
            }
            Err(_) => {}
        }
    }

    /// Removes a head that is not a String message (see `ApiAction::Skip`).
    pub fn drop_head(buffer: &mut Vec<PointType>)
        requires
            old(buffer)@.len() > 0,
        ensures
            final(buffer)@ == old(buffer)@.remove(0),
    {
        buffer.remove(0);
    }

    /// A sender into the in-queue linked under `name`, which must exist: a
    /// clone of the sender kept under that name.
    pub fn get_link(&self, name: &str) -> (res: Sender<PointType>)
        requires
            self.send.wf(),
            self.send.map().contains_key(name@),
        ensures
            vstd::pervasive::strictly_cloned(self.send.map()[name@], res),
    {
        let send = self.send.get(name).unwrap();
        sender_clone(send)
    }
}

} // verus!
