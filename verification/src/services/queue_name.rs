use vstd::prelude::*;
use crate::text::{after_char, before_char, find_char, lemma_split_at_first};

verus! {

/// The name of a service's queue, "Service.queue", held as its two parts.
#[derive(Debug, Clone)]
pub struct QueueName {
    service: String,
    queue: String,
}

impl QueueName {
    /// The service part of the name.
    pub closed spec fn service_part(&self) -> Seq<char> {
        self.service@
    }

    /// The queue part of the name.
    pub closed spec fn queue_part(&self) -> Seq<char> {
        self.queue@
    }

    /// Creates a new instance from a name like "Service.queue": the service
    /// is the part before the first '.', the queue the part between the
    /// first and the next '.' (or the end). The name must hold a '.'.
    pub fn new(name: &str) -> (res: Self)
        requires
            name@.contains('.'),
        ensures
            res.service_part() == before_char(name@, '.'),
            res.queue_part() == before_char(after_char(name@, '.'), '.'),
    {
        let n = name.unicode_len();
        let i = find_char(name, '.');
        proof {
            lemma_split_at_first(name@, '.', i as int);
            if i == n {
                let k = choose|k: int| 0 <= k < name@.len() && name@[k] == '.';
                assert(name@[k] != '.');
            }
        }
        let service = name.substring_char(0, i).to_owned();
        let rest = name.substring_char(i + 1, n);
        let j = find_char(rest, '.');
        proof { lemma_split_at_first(rest@, '.', j as int); }
        let queue = rest.substring_char(0, j).to_owned();
        QueueName { service, queue }
    }

    /// Returns the service name.
    pub fn service(&self) -> (res: &str)
        ensures
            res@ == self.service_part(),
    {
        self.service.as_str()
    }

    /// Returns the service's queue name.
    pub fn queue(&self) -> (res: &str)
        ensures
            res@ == self.queue_part(),
    {
        self.queue.as_str()
    }
}

/// The name "{service}.{queue}", of a service and a queue named without a
/// '.', gives back the service and the queue.
pub proof fn law_queue_name(service: Seq<char>, queue: Seq<char>)
    requires
        !service.contains('.'),
        !queue.contains('.'),
    ensures
        before_char(service + "."@ + queue, '.') == service,
        before_char(after_char(service + "."@ + queue, '.'), '.') == queue,
{
    reveal_strlit(".");
    let name = service + "."@ + queue;
    assert forall|j: int| 0 <= j < service.len() implies name[j] != '.' by {
        assert(name[j] == service[j]);
        if service[j] == '.' {
            assert(service.contains('.'));
        }
    }
    assert(name[service.len() as int] == '.');
    lemma_split_at_first(name, '.', service.len() as int);
    assert(name.subrange(0, service.len() as int) =~= service);
    assert(name.subrange(service.len() as int + 1, name.len() as int) =~= queue);
    assert forall|j: int| 0 <= j < queue.len() implies queue[j] != '.' by {
        if queue[j] == '.' {
            assert(queue.contains('.'));
        }
    }
    lemma_split_at_first(queue, '.', queue.len() as int);
    assert(queue.subrange(0, queue.len() as int) =~= queue);
}

} // verus!
