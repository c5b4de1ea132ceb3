use rpi_fft::ds_config::PointConf;
use std::sync::Arc;
use rpi_fft::ds_db::{point_kind, DsDb, DsDbConf, DsIed, DsIedConf, DsPointKind, MAX_QUEUE_SIZE};
use rpi_fft::point::{Cot, Point, Status, Value};
use rpi_fft::udp_server::{ServerStep, UdpServer};

fn point(data_type: &str, offset: u32) -> PointConf {
    PointConf {
        vrt: None,
        data_type: data_type.to_string(),
        offset: Some(offset),
        bit: None,
        h: None,
        a: None,
        comment: None,
    }
}

#[test]
fn data_block_defaults_and_known_points() {
    let config = DsDbConf {
        name: "db899".to_string(),
        description: Some("drive".to_string()),
        number: Some(899),
        offset: None,
        size: Some(34),
        delay: None,
        points: vec![
            ("Drive.Speed".to_string(), point("Real", 0)),
            ("Drive.Counter".to_string(), point("Int", 4)),
            ("Drive.Name".to_string(), point("String", 6)),
            ("Drive.On".to_string(), point("Bool", 30)),
        ],
    };
    let db = DsDb::new(config);
    assert_eq!(db.name, "db899");
    assert_eq!(db.description.as_deref(), Some("drive"));
    assert_eq!(db.number, 899);
    assert_eq!(db.offset, 0);
    assert_eq!(db.size, 34);
    assert_eq!(db.delay, 0);
    assert_eq!(db.points.len(), 4);
    let kept: Vec<(String, DsPointKind, Option<u32>)> =
        db.parse_points.iter().map(|p| (p.name.clone(), p.kind, p.offset)).collect();
    assert_eq!(
        kept,
        vec![
            ("Drive.Speed".to_string(), DsPointKind::Real, Some(0)),
            ("Drive.Counter".to_string(), DsPointKind::Int, Some(4)),
            ("Drive.On".to_string(), DsPointKind::Bool, Some(30)),
        ]
    );
}

#[test]
fn data_block_queue_is_shared_and_empty() {
    let db = DsDb::new(DsDbConf {
        name: "db".to_string(),
        description: None,
        number: Some(1),
        offset: None,
        size: None,
        delay: Some(10),
        points: vec![],
    });
    assert_eq!(MAX_QUEUE_SIZE, 16384);
    assert_eq!(db.receiver.capacity(), Some(16384));
    assert!(db.receiver.is_empty());
    assert!(Arc::ptr_eq(&db.sender, &db.receiver));
    let p = Point {
        tx_id: 0,
        name: "Drive.Counter".to_string(),
        value: Value::Int(3),
        status: Status::Good,
        cot: Cot::Inf,
        timestamp: 1,
    };
    db.sender.push(p).unwrap();
    assert_eq!(db.receiver.pop().unwrap().name, "Drive.Counter");
}

#[test]
fn data_block_cycle_waits() {
    let db = DsDb::new(DsDbConf {
        name: "db".to_string(),
        description: None,
        number: None,
        offset: None,
        size: None,
        delay: Some(100),
        points: vec![],
    });
    assert_eq!(db.cycle_wait(30), 70);
    assert_eq!(db.cycle_wait(100), 0);
    assert_eq!(db.cycle_wait(250), 0);
    assert_eq!(db.retry_wait(), 10_000);
}

#[test]
fn plc_defaults_and_blocks() {
    let block = |name: &str| DsDbConf {
        name: name.to_string(),
        description: None,
        number: Some(7),
        offset: None,
        size: None,
        delay: None,
        points: vec![("p".to_string(), point("Int", 0))],
    };
    let ied = DsIed::new(DsIedConf {
        name: "plc".to_string(),
        description: None,
        ip: None,
        rack: Some(0),
        slot: Some(1),
        dbs: Some(vec![("db1".to_string(), block("first")), ("db2".to_string(), block("second"))]),
    });
    assert_eq!(ied.name, "plc");
    assert_eq!(ied.ip, "");
    assert_eq!(ied.rack, 0);
    assert_eq!(ied.slot, 1);
    assert_eq!(ied.dbs.len(), 2);
    assert_eq!(ied.dbs[0].0, "db1");
    assert_eq!(ied.dbs[1].1.name, "second");
    assert_eq!(ied.dbs[1].1.number, 7);
    assert_eq!(ied.dbs[1].1.parse_points.len(), 1);
    let empty = DsIed::new(DsIedConf {
        name: "none".to_string(),
        description: Some("d".to_string()),
        ip: Some("192.168.100.243".to_string()),
        rack: None,
        slot: None,
        dbs: None,
    });
    assert_eq!(empty.ip, "192.168.100.243");
    assert_eq!(empty.rack, 0);
    assert!(empty.dbs.is_empty());
}

#[test]
fn data_block_without_points() {
    let config = DsDbConf {
        name: "empty".to_string(),
        description: None,
        number: None,
        offset: Some(2),
        size: None,
        delay: Some(100),
        points: vec![],
    };
    let db = DsDb::new(config);
    assert_eq!(db.number, 0);
    assert_eq!(db.offset, 2);
    assert_eq!(db.delay, 100);
    assert!(db.parse_points.is_empty());
}

#[test]
fn point_kinds_by_type_name() {
    assert_eq!(point_kind(&"Bool".to_string()), Some(DsPointKind::Bool));
    assert_eq!(point_kind(&"Int".to_string()), Some(DsPointKind::Int));
    assert_eq!(point_kind(&"Real".to_string()), Some(DsPointKind::Real));
    assert_eq!(point_kind(&"real".to_string()), None);
    assert_eq!(point_kind(&"Double".to_string()), None);
}

fn server() -> UdpServer {
    UdpServer::new("0.0.0.0:15180".to_string(), "192.168.100.241:15180".to_string(), None)
}

#[test]
fn server_new_defaults() {
    let s = server();
    assert_eq!(s.local_addr, "0.0.0.0:15180");
    assert_eq!(s.remote_addr, "192.168.100.241:15180");
    assert_eq!(s.reconnect_delay_ms, 3000);
    assert!(!s.is_connected);
    assert!(s.running());
    let t = UdpServer::new(String::new(), String::new(), Some(250));
    assert_eq!(t.reconnect_delay_ms, 250);
}

#[test]
fn server_restart_rebinds_once() {
    let mut s = server();
    s.on_bind(true);
    assert!(s.is_connected);
    assert_eq!(s.after_session(), ServerStep::Sleep);
    assert!(s.running());
    s.restart();
    assert!(!s.running());
    assert!(s.cancel && s.restart);
    assert_eq!(s.after_session(), ServerStep::Rebind);
    assert!(!s.cancel && !s.restart);
    assert!(s.running());
    assert_eq!(s.after_session(), ServerStep::Sleep);
}

#[test]
fn server_exit_clears_cancel() {
    let mut s = server();
    s.cancel = true;
    assert!(!s.running());
    assert_eq!(s.after_session(), ServerStep::Sleep);
    s.on_exit();
    assert!(s.running());
    s.on_bind(false);
    assert!(!s.is_connected);
}
