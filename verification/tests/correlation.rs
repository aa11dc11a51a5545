use modbus_client::error::Error;
use modbus_client::frame::{InnerResult, Pdu, Request, Response, RtuAdu, TcpAdu, TcpHeader};
use modbus_client::rtu;
use modbus_client::tcp;

fn sample_request() -> Request {
    Request { function: 3, data: vec![0, 16, 0, 2] }
}

fn sample_response() -> Response {
    Response { function: 3, data: vec![0x12, 0x34] }
}

#[test]
fn transaction_ids_distinct_until_wraparound() {
    let mut client = tcp::Client::new();
    for i in 0..65536u32 {
        let adu = client.start_call(sample_request());
        // identifier of call i is exactly i, so all 65536 are distinct
        // and none before the wraparound reuses 0
        assert_eq!(adu.header.transaction_id, i as u16);
    }
    // the 65537th call is the first to reuse 0
    let adu = client.start_call(sample_request());
    assert_eq!(adu.header.transaction_id, 0);
}

#[test]
fn counter_wraps_at_maximum() {
    let mut client = tcp::Client { transaction_id: 0xFFFF, unit_id: 1 };
    let adu = client.start_call(sample_request());
    assert_eq!(adu.header.transaction_id, 0xFFFF);
    assert_eq!(client.transaction_id, 0);
}

#[test]
fn correlation_rejection_stream() {
    let mut client = tcp::Client { transaction_id: 7, unit_id: 1 };
    let adu = client.start_call(sample_request());
    assert_eq!(adu.header.transaction_id, 7);
    let reply = TcpAdu {
        header: TcpHeader { transaction_id: 8, unit_id: 1 },
        pdu: Pdu::Reply(InnerResult::Response(sample_response())),
    };
    let r = tcp::Client::finish_call(7, reply);
    assert!(!matches!(r, Ok(_)));
    assert_eq!(r, Err(Error::InvalidTransactionId));
}

#[test]
fn correlation_rejection_bus() {
    let client = rtu::Client::new(3);
    let adu = client.start_call(sample_request());
    assert_eq!(adu.address, 3);
    let reply = RtuAdu {
        address: 5,
        pdu: Pdu::Reply(InnerResult::Response(sample_response())),
    };
    let r = rtu::Client::finish_call(3, reply);
    assert!(!matches!(r, Ok(_)));
    assert_eq!(r, Err(Error::InvalidServerId));
}

#[test]
fn successful_round_trip_stream() {
    let mut client = tcp::Client::new();
    let request = sample_request();
    let adu = client.start_call(request.clone());
    assert_eq!(adu.header.transaction_id, 0);
    assert_eq!(adu.header.unit_id, 1);
    assert_eq!(adu.pdu, Pdu::Request(request));
    assert_eq!(client.transaction_id, 1);
    let resp = sample_response();
    let reply = TcpAdu {
        header: TcpHeader { transaction_id: 0, unit_id: 1 },
        pdu: Pdu::Reply(InnerResult::Response(resp.clone())),
    };
    let r = tcp::Client::finish_call(0, reply);
    assert_eq!(r, Ok(resp));
}

#[test]
fn remote_exception_propagation_stream() {
    let mut client = tcp::Client::new();
    let adu = client.start_call(sample_request());
    assert_eq!(adu.header.transaction_id, 0);
    let reply = TcpAdu {
        header: TcpHeader { transaction_id: 0, unit_id: 1 },
        pdu: Pdu::Reply(InnerResult::Exception(2)),
    };
    let r = tcp::Client::finish_call(0, reply);
    assert_eq!(r, Err(Error::Exception(2)));
    assert_ne!(r, Err(Error::InvalidTransactionId));
}

#[test]
fn successful_round_trip_bus() {
    let client = rtu::Client::new(17);
    let request = sample_request();
    let adu = client.start_call(request.clone());
    assert_eq!(adu.address, 17);
    assert_eq!(adu.pdu, Pdu::Request(request));
    let resp = sample_response();
    let reply = RtuAdu {
        address: 17,
        pdu: Pdu::Reply(InnerResult::Response(resp.clone())),
    };
    let r = rtu::Client::finish_call(17, reply);
    assert_eq!(r, Ok(resp));
}

#[test]
fn remote_exception_propagation_bus() {
    let client = rtu::Client::new(17);
    let adu = client.start_call(sample_request());
    let reply = RtuAdu {
        address: adu.address,
        pdu: Pdu::Reply(InnerResult::Exception(6)),
    };
    let r = rtu::Client::finish_call(17, reply);
    assert_eq!(r, Err(Error::Exception(6)));
}

#[test]
fn idempotent_addressing_bus() {
    let client = rtu::Client::new(9);
    let first = client.start_call(sample_request());
    let first_reply = RtuAdu {
        address: first.address,
        pdu: Pdu::Reply(InnerResult::Response(sample_response())),
    };
    assert_eq!(rtu::Client::finish_call(9, first_reply), Ok(sample_response()));
    let second = client.start_call(sample_request());
    let second_reply = RtuAdu {
        address: second.address,
        pdu: Pdu::Reply(InnerResult::Response(sample_response())),
    };
    assert_eq!(rtu::Client::finish_call(9, second_reply), Ok(sample_response()));
    assert_eq!(first.address, second.address);
    assert_eq!(first.address, 9);
}
