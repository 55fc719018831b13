use tringlib::peer_connection::{
    operation_outcome, rate_as_bps, DataRate, PeerConnectionError, Protocol,
    RffiReceivedAudioLevel, SendRates, RATE_NOT_SET,
};

#[test]
fn a_rate_that_is_not_set_is_minus_one() {
    assert_eq!(rate_as_bps(None), -1);
    assert_eq!(RATE_NOT_SET, -1);
}

#[test]
fn a_rate_is_handed_over_in_bits_per_second() {
    assert_eq!(rate_as_bps(Some(DataRate::from_bps(0))), 0);
    assert_eq!(rate_as_bps(Some(DataRate::from_bps(2_000_000))), 2_000_000);
    assert_eq!(rate_as_bps(Some(DataRate::from_bps(i32::MAX as u64))), i32::MAX);
}

#[test]
fn a_rate_is_reduced_to_thirty_two_bits() {
    assert_eq!(rate_as_bps(Some(DataRate::from_bps(0x1_0000_0005))), 5);
    assert_eq!(rate_as_bps(Some(DataRate::from_bps(0x8000_0000))), i32::MIN);
}

#[test]
fn send_rates_as_three_numbers() {
    let rates = SendRates {
        min: Some(DataRate::from_bps(30_000)),
        start: None,
        max: Some(DataRate::from_bps(1_000_000)),
    };
    assert_eq!(rates.as_bps(), (30_000, -1, 1_000_000));
    assert_eq!(SendRates::default().as_bps(), (-1, -1, -1));
    assert_eq!(SendRates::default(), SendRates::unset());
}

#[test]
fn transports() {
    assert!(!Protocol::Udp.is_tcp());
    assert!(Protocol::Tcp.is_tcp());
    assert!(Protocol::Tls("relay.example").is_tcp());
    assert_eq!(Protocol::Udp.hostname(), None);
    assert_eq!(Protocol::Tcp.hostname(), None);
    assert_eq!(Protocol::Tls("relay.example").hostname(), Some("relay.example"));
}

#[test]
fn outcomes() {
    assert_eq!(operation_outcome(true, PeerConnectionError::SendRtp), Ok(()));
    assert_eq!(
        operation_outcome(false, PeerConnectionError::SendRtp),
        Err(PeerConnectionError::SendRtp)
    );
    assert_eq!(
        operation_outcome(false, PeerConnectionError::AddIceCandidate),
        Err(PeerConnectionError::AddIceCandidate)
    );
}

#[test]
fn received_audio_level_is_a_plain_pair() {
    let level = RffiReceivedAudioLevel { demux_id: 3, level: 500 };
    assert_eq!(level.clone(), RffiReceivedAudioLevel { demux_id: 3, level: 500 });
}
