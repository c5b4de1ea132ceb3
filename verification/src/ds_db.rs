//! A data block of a PLC: where it lies and how its points are parsed.
use std::sync::Arc;
use vstd::prelude::*;
use concurrent_queue::ConcurrentQueue;
use crate::ds_config::PointConf;
use crate::point::Point;

verus! {

#[verifier::external_type_specification]
#[verifier::external_body]
#[verifier::reject_recursive_types(T)]
pub struct ExConcurrentQueue<T>(ConcurrentQueue<T>);

/// The points a queue of points holds, oldest first.
///
/// A queue is pushed and popped through shared references; the contracts
/// here speak of a queue that was just made, which no other code has reached.
pub uninterp spec fn queue_points(q: ConcurrentQueue<Point>) -> Seq<Point>;

/// The number of points a queue of points was made to hold; `None` for an
/// unbounded queue.
pub uninterp spec fn queue_capacity(q: ConcurrentQueue<Point>) -> Option<nat>;

/// `ConcurrentQueue::bounded`: a new queue with room for `cap` points,
/// holding none. The crate panics on a capacity of zero, so `cap` is positive.
#[verifier::external_body]
fn bounded_queue(cap: usize) -> (res: ConcurrentQueue<Point>)
    requires
        cap > 0,
    ensures
        queue_points(res) == Seq::<Point>::empty(),
        queue_capacity(res) == Some(cap as nat),
{
    ConcurrentQueue::bounded(cap)
}

/// `Arc::clone`: another pointer to the same queue.
#[verifier::external_body]
fn share_queue(q: &Arc<ConcurrentQueue<Point>>) -> (res: Arc<ConcurrentQueue<Point>>)
    ensures
        *res == **q,
{
    Arc::clone(q)
}

/// The number of points the queue of a data block can hold.
pub const MAX_QUEUE_SIZE: usize = 16384;

/// Configuration of a data block; its points keep the order of the configuration.
#[derive(Debug, Clone)]
pub struct DsDbConf {
    pub name: String,
    pub description: Option<String>,
    pub number: Option<u32>,
    pub offset: Option<u32>,
    pub size: Option<u32>,
    pub delay: Option<u32>,
    pub points: Vec<(String, PointConf)>,
}

/// The kind of value a point of a data block is parsed as.
#[derive(Debug, Clone, Copy, PartialEq, Eq, Structural)]
pub enum DsPointKind {
    Bool,
    Int,
    Real,
}

/// How one point is parsed from the bytes of its data block: its name, its
/// kind and its address in the block.
#[derive(Debug, Clone)]
pub struct DsParsePoint {
    pub name: String,
    pub kind: DsPointKind,
    pub offset: Option<u32>,
    pub bit: Option<u8>,
}

/// A data block of a PLC, with the points parsed from it.
#[derive(Debug)]
pub struct DsDb {
    pub name: String,
    pub description: Option<String>,
    pub number: u32,
    pub offset: u32,
    pub size: u32,
    pub delay: u32,
    pub points: Vec<(String, PointConf)>,
    pub parse_points: Vec<DsParsePoint>,
    /// Where the block's changed points are pushed.
    pub sender: Arc<ConcurrentQueue<Point>>,
    /// Where the block's points are taken from: the same queue as `sender`.
    pub receiver: Arc<ConcurrentQueue<Point>>,
}

/// The kind of a point whose configured data type is `data_type`: `Bool`,
/// `Int` and `Real` are known, any other type is not.
pub open spec fn spec_point_kind(data_type: Seq<char>) -> Option<DsPointKind> {
    if data_type == "Bool"@ {
        Some(DsPointKind::Bool)
    } else if data_type == "Int"@ {
        Some(DsPointKind::Int)
    } else if data_type == "Real"@ {
        Some(DsPointKind::Real)
    } else {
        None
    }
}

/// A parse point as plain values: name, kind, offset, bit.
pub open spec fn spec_parse_point(p: DsParsePoint) -> (Seq<char>, DsPointKind, Option<u32>, Option<u8>) {
    (p.name@, p.kind, p.offset, p.bit)
}

/// The parse points of the configured `points`: one for each point of a known
/// kind, in configuration order; points of another type are left out.
pub open spec fn spec_parse_points(points: Seq<(String, PointConf)>) -> Seq<
    (Seq<char>, DsPointKind, Option<u32>, Option<u8>),
>
    decreases points.len(),
{
    if points.len() == 0 {
        Seq::empty()
    } else {
        let rest = spec_parse_points(points.drop_last());
        let key = points.last().0;
        let conf = points.last().1;
        match spec_point_kind(conf.data_type@) {
            Some(kind) => rest.push((key@, kind, conf.offset, conf.bit)),
            None => rest,
        }
    }
}

/// Whether a configured point is of a known kind.
pub open spec fn is_known() -> spec_fn((String, PointConf)) -> bool {
    |p: (String, PointConf)| spec_point_kind(p.1.data_type@) is Some
}

/// The configured points of a known kind, in configuration order.
pub open spec fn known_points(points: Seq<(String, PointConf)>) -> Seq<(String, PointConf)> {
    points.filter(is_known())
}

/// One parse point is made for each configured point of a known kind, in
/// configuration order, and it carries that point's name, kind and address:
/// its offset and its bit, as configured.
pub proof fn lemma_parse_points_keep_addresses(points: Seq<(String, PointConf)>)
    ensures
        spec_parse_points(points).len() == known_points(points).len(),
        forall|j: int|
            0 <= j < known_points(points).len() ==> {
                let p = #[trigger] known_points(points)[j];
                &&& spec_point_kind(p.1.data_type@) is Some
                &&& spec_parse_points(points)[j] == (
                    p.0@,
                    spec_point_kind(p.1.data_type@)->0,
                    p.1.offset,
                    p.1.bit,
                )
            },
    decreases points.len(),
{
    if points.len() > 0 {
        lemma_parse_points_keep_addresses(points.drop_last());
        reveal_with_fuel(Seq::filter, 1);
        assert(known_points(points) == {
            let rest = known_points(points.drop_last());
            if spec_point_kind(points.last().1.data_type@) is Some {
                rest.push(points.last())
            } else {
                rest
            }
        });
    }
}

/// A configured value, or 0 when it is not configured.
pub open spec fn or_zero(v: Option<u32>) -> u32 {
    match v {
        Some(x) => x,
        None => 0,
    }
}

/// Returns the kind of a point whose configured data type is `data_type`.
pub fn point_kind(data_type: &String) -> (res: Option<DsPointKind>)
    ensures
        res == spec_point_kind(data_type@),
{
    if data_type.eq(&String::from_str("Bool")) {
        Some(DsPointKind::Bool)
    } else if data_type.eq(&String::from_str("Int")) {
        Some(DsPointKind::Int)
    } else if data_type.eq(&String::from_str("Real")) {
        Some(DsPointKind::Real)
    } else {
        None
    }
}

fn configured(v: Option<u32>) -> (res: u32)
    ensures
        res == or_zero(v),
{
    match v {
        Some(x) => x,
        None => 0,
    }
}

/// Whether `db` is the data block made from `config`: its name and
/// description copied, an address part that is not configured 0, one parse
/// point for each point of type `Bool`, `Int` or `Real` in configuration
/// order, and one empty queue of `MAX_QUEUE_SIZE` places as both its sender
/// and its receiver.
pub open spec fn made_from(db: DsDb, config: DsDbConf) -> bool {
    &&& db.name@ == config.name@
    &&& db.description == config.description
    &&& db.number == or_zero(config.number)
    &&& db.offset == or_zero(config.offset)
    &&& db.size == or_zero(config.size)
    &&& db.delay == or_zero(config.delay)
    &&& db.points@ == config.points@
    &&& db.parse_points@.map_values(|p: DsParsePoint| spec_parse_point(p)) == spec_parse_points(
        config.points@,
    )
    &&& *db.sender == *db.receiver
    &&& queue_points(*db.receiver) == Seq::<Point>::empty()
    &&& queue_capacity(*db.receiver) == Some(MAX_QUEUE_SIZE as nat)
}

impl DsDb {
    /// Milliseconds to wait after a read cycle that took `elapsed_ms`, so
    /// that cycles start `delay` milliseconds apart; none when the cycle
    /// took that long or longer.
    pub fn cycle_wait(&self, elapsed_ms: u64) -> (res: u64)
        ensures
            res == if elapsed_ms < self.delay {
                self.delay - elapsed_ms
            } else {
                0
            },
    {
        let delay = self.delay as u64;
        if elapsed_ms < delay {
            delay - elapsed_ms
        } else {
            0
        }
    }

    /// Milliseconds to wait before trying again when the PLC is not
    /// connected or a read failed: a hundred times the delay.
    pub fn retry_wait(&self) -> (res: u64)
        ensures
            res == 100 * self.delay,
    {
        self.delay as u64 * 100
    }

    /// Creates the data block of `config`: an address part that is not
    /// configured is 0, and a parse point is made for each point of type
    /// `Bool`, `Int` or `Real`, in configuration order.
    pub fn new(config: DsDbConf) -> (res: DsDb)
        ensures
            made_from(res, config),
    {
        let mut parse_points: Vec<DsParsePoint> = Vec::new();
        let mut i: usize = 0;
        while i < config.points.len()
            invariant
                i <= config.points.len(),
                parse_points@.map_values(|p: DsParsePoint| spec_parse_point(p))
                    == spec_parse_points(config.points@.take(i as int)),
            decreases config.points.len() - i,
        {
            let ghost before = parse_points@;
            let key = &config.points[i].0;
            let conf = &config.points[i].1;
            let kind = point_kind(&conf.data_type);
            assert(config.points@.take(i + 1).drop_last() =~= config.points@.take(i as int));
            match kind {
                Some(kind) => {
                    parse_points.push(
                        DsParsePoint { name: key.clone(), kind, offset: conf.offset, bit: conf.bit },
                    );
                    assert(parse_points@.map_values(|p: DsParsePoint| spec_parse_point(p))
                        =~= before.map_values(|p: DsParsePoint| spec_parse_point(p)).push(
                        (key@, kind, conf.offset, conf.bit),
                    ));
                },
                None => {},
            }
            i = i + 1;
        }
        assert(config.points@.take(config.points.len() as int) =~= config.points@);
        let receiver = Arc::new(bounded_queue(MAX_QUEUE_SIZE));
        let sender = share_queue(&receiver);
        DsDb {
            name: config.name,
            description: config.description,
            number: configured(config.number),
            offset: configured(config.offset),
            size: configured(config.size),
            delay: configured(config.delay),
            points: config.points,
            parse_points,
            sender,
            receiver,
        }
    }
}

/// Configuration of a PLC: its address and its data blocks.
#[derive(Debug, Clone)]
pub struct DsIedConf {
    pub name: String,
    pub description: Option<String>,
    pub ip: Option<String>,
    pub rack: Option<u32>,
    pub slot: Option<u32>,
    pub dbs: Option<Vec<(String, DsDbConf)>>,
}

/// A PLC with its data blocks.
#[derive(Debug)]
pub struct DsIed {
    pub name: String,
    pub description: Option<String>,
    pub ip: String,
    pub rack: u32,
    pub slot: u32,
    pub dbs: Vec<(String, DsDb)>,
}

/// The configured data blocks of a PLC; none when none are configured.
pub open spec fn configured_dbs(dbs: Option<Vec<(String, DsDbConf)>>) -> Seq<(String, DsDbConf)> {
    match dbs {
        Some(v) => v@,
        None => Seq::empty(),
    }
}

impl DsIed {
    /// Creates the PLC of `config`: an address part that is not configured is
    /// empty or 0, and one data block is made for each configured block, in
    /// configuration order.
    pub fn new(config: DsIedConf) -> (res: DsIed)
        ensures
            res.name@ == config.name@,
            res.description == config.description,
            res.ip@ == match config.ip {
                Some(ip) => ip@,
                None => Seq::<char>::empty(),
            },
            res.rack == or_zero(config.rack),
            res.slot == or_zero(config.slot),
            res.dbs.len() == configured_dbs(config.dbs).len(),
            forall|i: int|
                0 <= i < res.dbs.len() ==> (#[trigger] res.dbs[i]).0@ == configured_dbs(
                    config.dbs,
                )[i].0@ && made_from(res.dbs[i].1, configured_dbs(config.dbs)[i].1),
    {
        let mut dbs: Vec<(String, DsDb)> = Vec::new();
        match config.dbs {
            Some(mut conf_dbs) => {
                let ghost all = conf_dbs@;
                let mut made: Vec<(String, DsDb)> = Vec::new();
                while conf_dbs.len() > 0
                    invariant
                        made.len() + conf_dbs.len() == all.len(),
                        conf_dbs@ == all.subrange(made.len() as int, all.len() as int),
                        forall|i: int|
                            0 <= i < made.len() ==> (#[trigger] made[i]).0@ == all[i].0@
                                && made_from(made[i].1, all[i].1),
                    decreases conf_dbs.len(),
                {
                    let (key, db_conf) = conf_dbs.remove(0);
                    let db = DsDb::new(db_conf);
                    made.push((key, db));
                }
                dbs = made;
            },
            None => {},
        }
        let ip = match config.ip {
            Some(ip) => ip,
            None => String::new(),
        };
        DsIed {
            name: config.name,
            description: config.description,
            ip,
            rack: configured(config.rack),
            slot: configured(config.slot),
            dbs,
        }
    }
}

} // verus!
