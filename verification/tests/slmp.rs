use fault_recorder::point::{Bool, Cot, Point, PointType, Status};
use fault_recorder::point_config::{PointConfig, PointConfigAddress, PointConfigHistory, PointConfigType};
use fault_recorder::services::slmp_client::parse_point::ParsePoint;
use fault_recorder::services::slmp_client::slmp::c_slmp_const::{FrameType, ProcessorNumber, SlmpCommand, SlmpSubCommand, TimerValue};
use fault_recorder::services::slmp_client::slmp::device_code::DeviceCode;
use fault_recorder::services::slmp_client::slmp::slmp_cpu_error::SlmpCpuError;
use fault_recorder::services::slmp_client::slmp::slmp_packet::{SlmpPacket, SlmpPacketData};
use fault_recorder::services::slmp_client::slmp::slmp_parse_bool::SlmpParseBool;

fn ts() -> chrono::NaiveDateTime {
    chrono::NaiveDate::from_ymd_opt(2024, 4, 8).unwrap().and_hms_opt(8, 52, 32).unwrap()
}

#[test]
fn device_codes() {
    assert_eq!(DeviceCode::parse("SM"), Some(DeviceCode::Sm));
    assert_eq!(DeviceCode::parse("d"), Some(DeviceCode::D));
    assert_eq!(DeviceCode::parse("Q"), None);
    assert_eq!(DeviceCode::from("W"), DeviceCode::W);
    assert_eq!(DeviceCode::D.code(), 0xA8);
    assert_eq!(DeviceCode::Sm.code(), 0x91);
    assert_eq!(DeviceCode::from_lowercase("SM"), None);
}

#[test]
fn cpu_error_texts() {
    assert_eq!(SlmpCpuError::text(0xC056), "Read or write request exceeds maximum address.");
    assert_eq!(SlmpCpuError::text(1234), "1234");
    assert_eq!(SlmpCpuError::text(-5), "-5");
    assert!(matches!(SlmpCpuError::from(0xC035), SlmpCpuError::DeviceNotFound));
    assert!(matches!(SlmpCpuError::from(7), SlmpCpuError::Inner(m) if m == "7 (7)"));
}

#[test]
fn slmp_constants() {
    assert_eq!(FrameType::BinReqSt.code(), 0x5000);
    assert_eq!(ProcessorNumber::CpuDefault.code(), 0x03FF);
    assert_eq!(TimerValue::WaitForever.code(), 0);
    assert_eq!(SlmpCommand::DeviceRead.code(), 0x0401);
    assert_eq!(SlmpCommand::DeviceWrite.code(), 0x1401);
    assert_eq!(SlmpSubCommand::SubWord0.code(), 0);
}

#[test]
fn slmp_request_data() {
    let data = SlmpPacketData::new(DeviceCode::D, 0x012345, 8);
    assert_eq!(data.build(None), vec![0x45, 0x23, 0x01, 0xA8, 4, 0]);
    assert_eq!(data.build(Some(&[9, 8])), vec![0x45, 0x23, 0x01, 0xA8, 4, 0, 9, 8]);
    let packet = SlmpPacket::new("/App/Plc", DeviceCode::M, 100, 2);
    assert_eq!(packet.id, "/App/Plc/SlmpPacket");
    let read = packet.read_packet(FrameType::BinReqSt);
    assert_eq!(read.data, vec![100, 0, 0, 0x90, 1, 0]);
    assert_eq!(read.data_length, 12);
    assert_eq!(read.command, 0x0401);
    assert_eq!(read.node_number, 0xFF);
    let write = packet.write_packet(FrameType::BinReqSt, &[1, 0]);
    assert_eq!(write.data_length, 14);
    assert_eq!(write.command, 0x1401);
    assert_eq!(SlmpPacket::data_length(FrameType::AsciiReqMt, &[0; 4]), 16);
    let raw: Vec<u8> = (0..40).collect();
    assert_eq!(packet.trim_packet(FrameType::BinReqSt, 12, &raw), (0..21).collect::<Vec<u8>>());
    assert_eq!(packet.finish(FrameType::BinReqSt, 12, 0, &raw), Ok((0..21).collect::<Vec<u8>>()));
    assert_eq!(packet.finish(FrameType::BinReqSt, 12, -1, &raw), Err("/App/Plc/SlmpPacket.build | SLMP_MakePacketStream returns error code -1".to_owned()));
}

#[test]
fn slmp_parse_bool_reads_and_writes_a_bit() {
    let conf = PointConfig {
        id: 0,
        name: "/App/Plc/Db/Bit".to_owned(),
        type_: PointConfigType::Bool,
        history: PointConfigHistory::Off,
        alarm: None,
        address: Some(PointConfigAddress { offset: Some(0), bit: Some(3) }),
        filters: None,
        comment: None,
    };
    let mut p = SlmpParseBool::new(1, "/App/Plc/Db/Bit".to_owned(), &conf);
    assert_eq!(p.size(), 2);
    let got = p.next(&[0b1000, 0], ts());
    assert!(matches!(got, Some(PointType::Bool(q)) if q.value == Bool(true) && q.status == Status::Good));
    assert!(p.next(&[0b1000, 0], ts()).is_none());
    let write = PointType::Bool(Point::new(0, "/App/Plc/Db/Bit", Bool(false), Status::Good, Cot::Act, ts()));
    assert_eq!(p.to_bytes(&write), Ok(vec![0, 0]));
    let int = PointType::Int(Point::new(0, "/App/Plc/Db/Bit", 1, Status::Good, Cot::Act, ts()));
    assert_eq!(p.to_bytes(&int), Err("SlmpParseBool.write | Point of type 'Bool' expected, but found 'Int' in the parse point: \"/App/Plc/Db/Bit\"".to_owned()));
    let st = p.next_status(Status::Invalid);
    assert!(matches!(st, Some(PointType::Bool(q)) if q.status == Status::Invalid));
}

#[test]
fn slmp_parse_bool_word_out_of_i16() {
    let conf = PointConfig {
        id: 0,
        name: "/App/Plc/Db/Hi".to_owned(),
        type_: PointConfigType::Bool,
        history: PointConfigHistory::Off,
        alarm: None,
        address: Some(PointConfigAddress { offset: Some(0), bit: Some(15) }),
        filters: None,
        comment: None,
    };
    let p = SlmpParseBool::new(1, "/App/Plc/Db/Hi".to_owned(), &conf);
    let write = PointType::Bool(Point::new(0, "/App/Plc/Db/Hi", Bool(true), Status::Good, Cot::Act, ts()));
    let err = p.to_bytes(&write).unwrap_err();
    assert!(err.starts_with("SlmpParseBool.write | 'true' to i16 conversion error: "), "{}", err);
    assert!(err.ends_with(" in the parse point: \"/App/Plc/Db/Hi\""), "{}", err);
}
