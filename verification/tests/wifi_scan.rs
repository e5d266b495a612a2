use esp_wroom_32_slave::master::messages::wifi_scan::{
    decode, encode, WifiScanError, WifiScanRequestMessage, WifiScanRequestPayload,
    WifiScanResultItem,
};
use esp_wroom_32_slave::master::protocol::{decode_packet, Packet, PacketError};
use esp_wroom_32_slave::network::wifi::scan::{
    auth_method_list, process_wifi_scan_request, send_wifi_scan_chunks, AccessPoint, AuthMethod,
};

fn item(ssid_len: usize) -> WifiScanResultItem {
    WifiScanResultItem {
        ssid: "s".repeat(ssid_len),
        bssid: "11:22:33:44:55:66".to_string(),
        channel: 6,
        rssi: -70,
        auth_method: vec!["WPA2Personal".to_string()],
    }
}

fn list_of(frame: &[u8]) -> (u8, Vec<serde_json::Value>) {
    let packet = decode_packet(frame).unwrap();
    assert_eq!(packet.cmd, 8);
    assert!(packet.payload.len() <= 1500);
    let list: serde_json::Value = rmp_serde::from_slice(packet.payload).unwrap();
    (packet.parameter, list.as_array().unwrap().clone())
}

#[test]
fn requests_have_parameter_zero() {
    let packet = Packet { cmd: 8, parameter: 0, payload: &[] };
    let request = decode(&packet, Some(WifiScanRequestPayload { limit: 20 })).unwrap();
    assert_eq!(request.limit, 20);
    assert_eq!(decode(&packet, None).err().unwrap(), WifiScanError::Malformed);
    let packet = Packet { cmd: 8, parameter: 1, payload: &[] };
    assert_eq!(
        decode(&packet, Some(WifiScanRequestPayload { limit: 0 })).err().unwrap(),
        WifiScanError::ParameterNotZero(1)
    );
    let packet = Packet { cmd: 1, parameter: 0, payload: &[] };
    assert_eq!(decode(&packet, None).err().unwrap(), WifiScanError::NotWifiScan { cmd: 1 });
}

#[test]
fn chunk_lists_networks_as_maps() {
    let frame = encode(3, &[item(4)]).unwrap();
    let (index, list) = list_of(&frame);
    assert_eq!(index, 3);
    let expected: serde_json::Value = serde_json::from_str(
        r#"{ "ssid": "ssss", "bssid": "11:22:33:44:55:66", "channel": 6, "rssi": -70,
             "authMethod": ["WPA2Personal"] }"#,
    )
    .unwrap();
    assert_eq!(list, vec![expected]);
    assert!(matches!(
        encode(0, &[item(2000)]),
        Err(PacketError::PayloadTooLarge { len: 2075 })
    ));
}

#[test]
fn empty_scan_is_one_empty_list() {
    let mut outbox = Vec::new();
    assert!(send_wifi_scan_chunks(&mut outbox, &[]).is_ok());
    assert_eq!(outbox.len(), 1);
    assert_eq!(&outbox[0][..6], &[0xAA, 1, 0, 8, 0, 0x90]);
}

#[test]
fn chunks_are_filled_in_order() {
    let items: Vec<WifiScanResultItem> = (0..60).map(|i| item(i % 33)).collect();
    let mut outbox = Vec::new();
    assert!(send_wifi_scan_chunks(&mut outbox, &items).is_ok());
    assert!(outbox.len() > 1);
    let mut next = 0;
    for (number, frame) in outbox.iter().enumerate() {
        let (index, list) = list_of(frame);
        assert_eq!(index as usize, number);
        for entry in &list {
            let ssid = entry.get("ssid").unwrap().as_str().unwrap();
            assert_eq!(ssid.len(), next % 33);
            next += 1;
        }
        if number + 1 < outbox.len() {
            let first = next - list.len();
            assert!(encode(index, &items[first..next + 1]).is_err());
        }
    }
    assert_eq!(next, 60);
}

#[test]
fn item_that_fits_no_frame_is_left_out() {
    let items = vec![item(1), item(1600), item(2)];
    let mut outbox = Vec::new();
    assert!(send_wifi_scan_chunks(&mut outbox, &items).is_ok());
    let lens: Vec<usize> = outbox
        .iter()
        .flat_map(|frame| list_of(frame).1)
        .map(|entry| entry.get("ssid").unwrap().as_str().unwrap().len())
        .collect();
    assert_eq!(lens, vec![1, 2]);

    let mut outbox = Vec::new();
    assert!(send_wifi_scan_chunks(&mut outbox, &[item(1600)]).is_ok());
    assert!(outbox.is_empty());
}

#[test]
fn response_ends_at_the_last_chunk_number() {
    let items: Vec<WifiScanResultItem> = (0..256).map(|_| item(1000)).collect();
    let mut outbox = Vec::new();
    assert!(send_wifi_scan_chunks(&mut outbox, &items).is_ok());
    assert_eq!(outbox.len(), 256);
    assert_eq!(list_of(&outbox[255]).0, 255);

    let items: Vec<WifiScanResultItem> = (0..257).map(|_| item(1000)).collect();
    let mut outbox = Vec::new();
    assert!(send_wifi_scan_chunks(&mut outbox, &items).is_err());
    assert_eq!(outbox.len(), 256);
}

#[test]
fn authentication_methods_have_their_names() {
    assert_eq!(auth_method_list(None), vec!["None".to_string()]);
    let names = [
        (AuthMethod::Open, "None"),
        (AuthMethod::Wep, "WEP"),
        (AuthMethod::Wpa, "WPA"),
        (AuthMethod::Wpa2Personal, "WPA2Personal"),
        (AuthMethod::WpaWpa2Personal, "WPAWPA2Personal"),
        (AuthMethod::Wpa2Enterprise, "WPA2Enterprise"),
        (AuthMethod::Wpa3Personal, "WPA3Personal"),
        (AuthMethod::Wpa2Wpa3Personal, "WPA2WPA3Personal"),
        (AuthMethod::WapiPersonal, "WAPIPersonal"),
    ];
    for (method, name) in names {
        assert_eq!(auth_method_list(Some(method)), vec![name.to_string()]);
    }
    assert_eq!(
        format!("{:?}", embedded_svc::wifi::AuthMethod::WPA2WPA3Personal),
        AuthMethod::Wpa2Wpa3Personal.as_text()
    );
}

#[test]
fn scan_requests_are_limited() {
    let found: Vec<AccessPoint> = (0..5u8)
        .map(|i| AccessPoint {
            ssid: format!("net{}", i),
            bssid: [i, 1, 2, 0xAB, 0xCD, 0xEF],
            channel: i + 1,
            signal_strength: -40 - i as i8,
            auth_method: None,
        })
        .collect();
    let found = Some(found);
    for (limit, expected) in [(0u16, 5usize), (3, 3), (5, 5), (9, 5)] {
        let mut outbox = Vec::new();
        let request = WifiScanRequestMessage { limit };
        assert!(process_wifi_scan_request(&request, &found, &mut outbox).is_ok());
        assert_eq!(outbox.len(), 1);
        let (_, list) = list_of(&outbox[0]);
        assert_eq!(list.len(), expected);
        assert_eq!(list[2].get("bssid").unwrap().as_str().unwrap(), "02:01:02:AB:CD:EF");
        assert_eq!(list[2].get("rssi").unwrap().as_i64().unwrap(), -42);
        assert_eq!(list[2].get("channel").unwrap().as_u64().unwrap(), 3);
    }
    let mut outbox = Vec::new();
    assert!(process_wifi_scan_request(&WifiScanRequestMessage { limit: 1 }, &None, &mut outbox)
        .is_ok());
    assert!(list_of(&outbox[0]).1.is_empty());
}
