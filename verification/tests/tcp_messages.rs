use esp_wroom_32_slave::master::messages::tcp_command;
use esp_wroom_32_slave::master::messages::tcp_command::{TcpCommandError, TcpCommandPayload};
use esp_wroom_32_slave::master::messages::tcp_data;
use esp_wroom_32_slave::master::messages::tcp_data::TcpDataError;
use esp_wroom_32_slave::master::protocol::{decode_packet, Packet, PacketError};

#[test]
fn commands_name_a_slot() {
    let packet = Packet { cmd: 6, parameter: 3, payload: &[] };
    let message = tcp_command::decode(&packet, Some(TcpCommandPayload { close: true })).unwrap();
    assert_eq!(message.index, 3);
    assert!(message.command.close);
    assert_eq!(tcp_command::decode(&packet, None).err().unwrap(), TcpCommandError::Malformed);

    let packet = Packet { cmd: 6, parameter: 4, payload: &[] };
    assert_eq!(
        tcp_command::decode(&packet, Some(TcpCommandPayload { close: true })).err().unwrap(),
        TcpCommandError::IndexOutOfRange(4)
    );
    let packet = Packet { cmd: 7, parameter: 0, payload: &[] };
    assert_eq!(
        tcp_command::decode(&packet, None).err().unwrap(),
        TcpCommandError::NotTcpCommand { cmd: 7 }
    );
}

#[test]
fn data_reads_back() {
    let frame = tcp_data::encode(2, &[0xAA, 0, 255]).unwrap();
    let message = tcp_data::decode(&decode_packet(&frame).unwrap()).unwrap();
    assert_eq!(message.index, 2);
    assert_eq!(message.payload, vec![0xAA, 0, 255]);
}

#[test]
fn data_faults_are_named() {
    assert_eq!(tcp_data::encode(4, &[]), Err(TcpDataError::IndexOutOfRange(4)));
    assert_eq!(
        tcp_data::encode(0, &[0u8; 1501]),
        Err(TcpDataError::Packet(PacketError::PayloadTooLarge { len: 1501 }))
    );
    let packet = Packet { cmd: 7, parameter: 4, payload: &[1] };
    assert_eq!(tcp_data::decode(&packet).err().unwrap(), TcpDataError::IndexOutOfRange(4));
    let packet = Packet { cmd: 6, parameter: 0, payload: &[1] };
    assert_eq!(tcp_data::decode(&packet).err().unwrap(), TcpDataError::NotTcpData { cmd: 6 });
}
