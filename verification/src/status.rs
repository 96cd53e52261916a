//! The message broker status report: connection state, the monitored
//! streams and consumers, and the dead letter queue.
use vstd::prelude::*;

verus! {

/// Connection state of the broker client.
pub enum NatsConnectionState {
    Connected,
    Disconnected,
    Pending,
}

/// The broker connection: state and server host.
pub struct NatsConnectionStatus {
    pub state: NatsConnectionState,
    pub server_url: String,
}

/// Retention policy of a stream.
pub enum RetentionPolicy {
    Limits,
    Interest,
    WorkQueue,
}

/// The status of one stream.
pub struct StreamStatus {
    pub name: String,
    pub messages: u64,
    pub bytes: u64,
    pub consumer_count: usize,
    pub first_seq: u64,
    pub last_seq: u64,
    pub first_ts: Option<String>,
    pub last_ts: Option<String>,
    pub subjects: Vec<String>,
    pub retention: String,
}

/// The status of one consumer.
pub struct ConsumerStatus {
    pub name: String,
    pub stream: String,
    pub num_pending: u64,
    pub num_ack_pending: u64,
    pub num_waiting: u64,
    pub num_redelivered: u64,
    pub num_delivered: u64,
    pub num_ack_floor: u64,
    pub last_delivered_seq: u64,
    pub ack_floor_seq: u64,
}

/// Message count of one dead letter subject.
pub struct DlqSubjectCount {
    pub subject: String,
    pub count: u64,
}

/// The dead letter queue.
pub struct DlqStatus {
    pub total_messages: u64,
    pub total_bytes: u64,
    pub by_subject: Vec<DlqSubjectCount>,
}

/// The whole report.
pub struct NatsStatusResponse {
    pub connection: NatsConnectionStatus,
    pub streams: Vec<StreamStatus>,
    pub consumers: Vec<ConsumerStatus>,
    pub dlq: DlqStatus,
}

/// What the broker reports about a stream, as plain values.
pub struct StreamInfo {
    pub messages: u64,
    pub bytes: u64,
    pub consumer_count: usize,
    pub first_seq: u64,
    pub last_seq: u64,
    pub first_ts: String,
    pub last_ts: String,
    pub subjects: Vec<String>,
    pub retention: RetentionPolicy,
}

/// What the broker reports about a consumer, as plain values.
pub struct ConsumerInfo {
    pub num_pending: u64,
    pub num_ack_pending: u64,
    pub num_waiting: u64,
    pub num_redelivered: u64,
    pub delivered_consumer_seq: u64,
    pub ack_floor_consumer_seq: u64,
    pub delivered_stream_seq: u64,
    pub ack_floor_stream_seq: u64,
}

/// Number of monitored streams.
pub const NUM_STREAMS: usize = 7;

/// The `i`-th monitored stream.
pub open spec fn monitored_stream(i: int) -> Seq<char> {
    if i == 0 {
        "COLLECTION_TRANSFORMS"@
    } else if i == 1 {
        "DATASET_TRANSFORMS"@
    } else if i == 2 {
        "VISUALIZATION_TRANSFORMS"@
    } else if i == 3 {
        "DLQ_TRANSFORMS"@
    } else if i == 4 {
        "SCANNER_TRIGGERS"@
    } else if i == 5 {
        "TRANSFORM_STATUS"@
    } else {
        "AUDIT_EVENTS"@
    }
}

/// The name of the `i`-th monitored stream.
pub fn stream_name(i: usize) -> (r: &'static str)
    requires
        i < NUM_STREAMS,
    ensures
        r@ == monitored_stream(i as int),
{
    if i == 0 {
        "COLLECTION_TRANSFORMS"
    } else if i == 1 {
        "DATASET_TRANSFORMS"
    } else if i == 2 {
        "VISUALIZATION_TRANSFORMS"
    } else if i == 3 {
        "DLQ_TRANSFORMS"
    } else if i == 4 {
        "SCANNER_TRIGGERS"
    } else if i == 5 {
        "TRANSFORM_STATUS"
    } else {
        "AUDIT_EVENTS"
    }
}

/// Number of monitored consumers.
pub const NUM_CONSUMERS: usize = 5;

/// The `i`-th monitored consumer and its stream.
pub open spec fn monitored_consumer(i: int) -> (Seq<char>, Seq<char>) {
    if i == 0 {
        ("collection-transform-workers"@, "COLLECTION_TRANSFORMS"@)
    } else if i == 1 {
        ("dataset-transform-workers"@, "DATASET_TRANSFORMS"@)
    } else if i == 2 {
        ("visualization-transform-workers"@, "VISUALIZATION_TRANSFORMS"@)
    } else if i == 3 {
        ("scanner-workers"@, "SCANNER_TRIGGERS"@)
    } else {
        ("audit-db-writer"@, "AUDIT_EVENTS"@)
    }
}

/// The `i`-th monitored consumer and its stream.
pub fn consumer_names(i: usize) -> (r: (&'static str, &'static str))
    requires
        i < NUM_CONSUMERS,
    ensures
        (r.0@, r.1@) == monitored_consumer(i as int),
{
    if i == 0 {
        ("collection-transform-workers", "COLLECTION_TRANSFORMS")
    } else if i == 1 {
        ("dataset-transform-workers", "DATASET_TRANSFORMS")
    } else if i == 2 {
        ("visualization-transform-workers", "VISUALIZATION_TRANSFORMS")
    } else if i == 3 {
        ("scanner-workers", "SCANNER_TRIGGERS")
    } else {
        ("audit-db-writer", "AUDIT_EVENTS")
    }
}

/// The name of a retention policy.
pub fn retention_name(p: &RetentionPolicy) -> (r: String)
    ensures
        r@ == match *p {
            RetentionPolicy::Limits => "Limits"@,
            RetentionPolicy::Interest => "Interest"@,
            RetentionPolicy::WorkQueue => "WorkQueue"@,
        },
{
    match p {
        RetentionPolicy::Limits => "Limits".to_string(),
        RetentionPolicy::Interest => "Interest".to_string(),
        RetentionPolicy::WorkQueue => "WorkQueue".to_string(),
    }
}

/// `r` is the status of the stream named `name` for what the broker
/// reported on it: its figures, or all zero with retention "Unknown" when it
/// could not be read.
pub open spec fn is_stream_status(r: StreamStatus, name: Seq<char>, info: Option<StreamInfo>) -> bool {
    &&& r.name@ == name
    &&& match info {
        Some(i) => {
            &&& r.messages == i.messages && r.bytes == i.bytes
            &&& r.consumer_count == i.consumer_count
            &&& r.first_seq == i.first_seq && r.last_seq == i.last_seq
            &&& r.first_ts == Some(i.first_ts) && r.last_ts == Some(i.last_ts)
            &&& r.subjects == i.subjects
            &&& r.retention@ == match i.retention {
                RetentionPolicy::Limits => "Limits"@,
                RetentionPolicy::Interest => "Interest"@,
                RetentionPolicy::WorkQueue => "WorkQueue"@,
            }
        },
        None => {
            &&& r.messages == 0 && r.bytes == 0 && r.consumer_count == 0
            &&& r.first_seq == 0 && r.last_seq == 0
            &&& r.first_ts is None && r.last_ts is None
            &&& r.subjects@.len() == 0
            &&& r.retention@ == "Unknown"@
        },
    }
}

/// The status of a stream named `name`, from the broker's information, or
/// an all-zero status with retention "Unknown" when it could not be read.
pub fn stream_status(name: &str, info: Option<StreamInfo>) -> (r: StreamStatus)
    ensures
        is_stream_status(r, name@, info),
{
    match info {
        Some(i) => {
            let retention = retention_name(&i.retention);
            StreamStatus {
                name: name.to_string(),
                messages: i.messages,
                bytes: i.bytes,
                consumer_count: i.consumer_count,
                first_seq: i.first_seq,
                last_seq: i.last_seq,
                first_ts: Some(i.first_ts),
                last_ts: Some(i.last_ts),
                subjects: i.subjects,
                retention,
            }
        },
        None => StreamStatus {
            name: name.to_string(),
            messages: 0,
            bytes: 0,
            consumer_count: 0,
            first_seq: 0,
            last_seq: 0,
            first_ts: None,
            last_ts: None,
            subjects: Vec::new(),
            retention: "Unknown".to_string(),
        },
    }
}

/// The stream statuses of the report, one per monitored stream and in the
/// monitored order, whether or not the broker could report on it. `infos[i]`
/// is what the broker reported for the `i`-th monitored stream.
pub fn stream_statuses(infos: Vec<Option<StreamInfo>>) -> (r: Vec<StreamStatus>)
    requires
        infos.len() == NUM_STREAMS,
    ensures
        r.len() == NUM_STREAMS,
        forall|i: int| 0 <= i < NUM_STREAMS ==> is_stream_status(#[trigger] r[i], monitored_stream(i), infos[i]),
{
    let mut out: Vec<StreamStatus> = Vec::new();
    let mut rest = infos;
    let ghost orig = rest@;
    let mut i: usize = 0;
    while i < NUM_STREAMS
        invariant
            i <= NUM_STREAMS,
            orig.len() == NUM_STREAMS,
            rest@ == orig.skip(i as int),
            out.len() == i,
            forall|j: int| 0 <= j < i ==> is_stream_status(#[trigger] out[j], monitored_stream(j), orig[j]),
        decreases NUM_STREAMS - i,
    {
        let info = rest.remove(0);
        assert(info == orig[i as int]);
        assert(rest@ =~= orig.skip(i + 1));
        out.push(stream_status(stream_name(i), info));
        i = i + 1;
    }
    out
}

/// `r` is the status of consumer `name` of `stream` for the broker's
/// information: its counters, with the delivered and acknowledged-floor
/// positions taken from the consumer's and the stream's sequences.
pub open spec fn is_consumer_status(r: ConsumerStatus, name: Seq<char>, stream: Seq<char>, info: ConsumerInfo) -> bool {
    &&& r.name@ == name
    &&& r.stream@ == stream
    &&& r.num_pending == info.num_pending
    &&& r.num_ack_pending == info.num_ack_pending
    &&& r.num_waiting == info.num_waiting
    &&& r.num_redelivered == info.num_redelivered
    &&& r.num_delivered == info.delivered_consumer_seq
    &&& r.num_ack_floor == info.ack_floor_consumer_seq
    &&& r.last_delivered_seq == info.delivered_stream_seq
    &&& r.ack_floor_seq == info.ack_floor_stream_seq
}

/// The status of a consumer from the broker's information.
pub fn consumer_status(name: &str, stream: &str, info: &ConsumerInfo) -> (r: ConsumerStatus)
    ensures
        is_consumer_status(r, name@, stream@, *info),
{
    ConsumerStatus {
        name: name.to_string(),
        stream: stream.to_string(),
        num_pending: info.num_pending,
        num_ack_pending: info.num_ack_pending,
        num_waiting: info.num_waiting,
        num_redelivered: info.num_redelivered,
        num_delivered: info.delivered_consumer_seq,
        num_ack_floor: info.ack_floor_consumer_seq,
        last_delivered_seq: info.delivered_stream_seq,
        ack_floor_seq: info.ack_floor_stream_seq,
    }
}

/// The monitored consumers that reported, in the monitored order, of
/// those first `n`.
pub open spec fn reported_consumers(infos: Seq<Option<ConsumerInfo>>, n: int) -> Seq<int>
    decreases n,
{
    if n <= 0 {
        seq![]
    } else if infos[n - 1] is Some {
        reported_consumers(infos, n - 1).push(n - 1)
    } else {
        reported_consumers(infos, n - 1)
    }
}

/// Each consumer that counts as reported did report.
proof fn lemma_reported_consumers_reported(infos: Seq<Option<ConsumerInfo>>, n: int)
    requires
        0 <= n <= infos.len(),
    ensures
        forall|k: int|
            0 <= k < reported_consumers(infos, n).len() ==> 0 <= #[trigger] reported_consumers(infos, n)[k]
                < n && infos[reported_consumers(infos, n)[k]] is Some,
    decreases n,
{
    if n > 0 {
        lemma_reported_consumers_reported(infos, n - 1);
    }
}

/// The consumer statuses of the report: those monitored consumers the broker
/// could report on, in the monitored order. `infos[i]` is what the broker
/// reported for the `i`-th monitored consumer.
pub fn consumer_statuses(infos: &Vec<Option<ConsumerInfo>>) -> (r: Vec<ConsumerStatus>)
    requires
        infos.len() == NUM_CONSUMERS,
    ensures
        r.len() == reported_consumers(infos@, NUM_CONSUMERS as int).len(),
        forall|k: int|
            0 <= k < r.len() ==> {
                let i = reported_consumers(infos@, NUM_CONSUMERS as int)[k];
                infos@[i] matches Some(info) && is_consumer_status(
                    #[trigger] r[k],
                    monitored_consumer(i).0,
                    monitored_consumer(i).1,
                    info,
                )
            },
{
    let mut out: Vec<ConsumerStatus> = Vec::new();
    let mut i: usize = 0;
    while i < NUM_CONSUMERS
        invariant
            i <= NUM_CONSUMERS,
            infos.len() == NUM_CONSUMERS,
            out.len() == reported_consumers(infos@, i as int).len(),
            forall|k: int|
                0 <= k < out.len() ==> {
                    let j = reported_consumers(infos@, i as int)[k];
                    infos@[j] matches Some(info) && is_consumer_status(
                        #[trigger] out[k],
                        monitored_consumer(j).0,
                        monitored_consumer(j).1,
                        info,
                    )
                },
        decreases NUM_CONSUMERS - i,
    {
        let ghost before = out@;
        match &infos[i] {
            Some(info) => {
                let (name, stream) = consumer_names(i);
                out.push(consumer_status(name, stream, info));
            },
            None => {},
        }
        proof {
            lemma_reported_consumers_reported(infos@, i + 1);
            let rc = reported_consumers(infos@, i + 1);
            assert forall|k: int| 0 <= k < out.len() implies {
                let j = rc[k];
                infos@[j] matches Some(info) && is_consumer_status(
                    #[trigger] out[k],
                    monitored_consumer(j).0,
                    monitored_consumer(j).1,
                    info,
                )
            } by {
                if k < before.len() {
                    assert(out@[k] == before[k]);
                    assert(rc[k] == reported_consumers(infos@, i as int)[k]);
                }
            }
        }
        i = i + 1;
    }
    proof {
        lemma_reported_consumers_reported(infos@, NUM_CONSUMERS as int);
    }
    out
}

/// Number of dead letter subjects.
pub const NUM_DLQ_SUBJECTS: usize = 3;

/// The dead letter queue from its stream's totals: the totals and a zero
/// count for each dead letter subject; an empty status when the stream
/// could not be read.
pub fn dlq_status(totals: Option<(u64, u64)>) -> (r: DlqStatus)
    ensures
        match totals {
            Some((messages, bytes)) => {
                &&& r.total_messages == messages && r.total_bytes == bytes
                &&& r.by_subject.len() == NUM_DLQ_SUBJECTS
                &&& r.by_subject[0].subject@ == "dlq.collection-transforms"@
                &&& r.by_subject[1].subject@ == "dlq.dataset-transforms"@
                &&& r.by_subject[2].subject@ == "dlq.visualization-transforms"@
                &&& forall|i: int| 0 <= i < NUM_DLQ_SUBJECTS ==> (#[trigger] r.by_subject[i]).count == 0
            },
            None => r.total_messages == 0 && r.total_bytes == 0 && r.by_subject.len() == 0,
        },
{
    match totals {
        Some((messages, bytes)) => {
            let mut by_subject: Vec<DlqSubjectCount> = Vec::new();
            by_subject.push(DlqSubjectCount { subject: "dlq.collection-transforms".to_string(), count: 0 });
            by_subject.push(DlqSubjectCount { subject: "dlq.dataset-transforms".to_string(), count: 0 });
            by_subject.push(DlqSubjectCount { subject: "dlq.visualization-transforms".to_string(), count: 0 });
            DlqStatus { total_messages: messages, total_bytes: bytes, by_subject }
        },
        None => DlqStatus { total_messages: 0, total_bytes: 0, by_subject: Vec::new() },
    }
}

} // verus!
