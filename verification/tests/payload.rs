use server_probe::error::ProbeError;
use server_probe::payload::{
    accepts, favicon_image, image_from_decoded, image_path, payload_path, screen,
    skip_favicon_prefix, MOTDDescription, MOTDPlayer, MOTDPlayers, MOTDVersion, Rejection,
    FAVICON_PREFIX_LEN, MOTD, PLAYER_CAP, PROTOCOL_VERSION,
};

fn sample_payload() -> MOTD {
    MOTD {
        description: MOTDDescription { text: String::from("A") },
        players: MOTDPlayers { max: 50, online: 1, sample: None },
        version: MOTDVersion { name: String::from("1.20"), protocol: 760 },
        favicon: Some(String::from("data:image/png;base64,AAAA")),
    }
}

#[test]
fn constants_are_the_operational_ones() {
    assert_eq!(PROTOCOL_VERSION, 760);
    assert_eq!(PLAYER_CAP, 50);
    assert_eq!(FAVICON_PREFIX_LEN, "data:image/png;base64,".len());
}

#[test]
fn filter_accepts_matching_payload() {
    let payload = sample_payload();
    assert!(accepts(&payload, 760));
    assert_eq!(screen(&payload, 760), Ok(&String::from("data:image/png;base64,AAAA")));
}

#[test]
fn filter_accepts_with_player_sample() {
    let mut payload = sample_payload();
    payload.players.sample = Some(vec![MOTDPlayer {
        name: String::from("n"),
        id: String::from("i"),
    }]);
    payload.players.online = 0;
    assert!(accepts(&payload, 760));
}

#[test]
fn filter_rejects_other_player_cap() {
    let mut payload = sample_payload();
    payload.players.max = 20;
    assert!(!accepts(&payload, 760));
    assert_eq!(screen(&payload, 760), Err(Rejection::PlayerCap));
}

#[test]
fn filter_rejects_missing_favicon() {
    let mut payload = sample_payload();
    payload.favicon = None;
    assert!(!accepts(&payload, 760));
    assert_eq!(screen(&payload, 760), Err(Rejection::NoFavicon));
}

#[test]
fn filter_rejects_other_protocol() {
    let mut payload = sample_payload();
    payload.version.protocol = 759;
    assert!(!accepts(&payload, 760));
    assert_eq!(screen(&payload, 760), Err(Rejection::ProtocolMismatch));
}

#[test]
fn filter_compares_with_the_announced_version() {
    let payload = sample_payload();
    assert!(!accepts(&payload, 761));
    let mut other = sample_payload();
    other.version.protocol = 761;
    assert!(accepts(&other, 761));
}

#[test]
fn filter_names_the_first_failure() {
    let mut payload = sample_payload();
    payload.players.max = 51;
    payload.favicon = None;
    payload.version.protocol = 1;
    assert_eq!(screen(&payload, 760), Err(Rejection::PlayerCap));
    payload.players.max = 50;
    assert_eq!(screen(&payload, 760), Err(Rejection::NoFavicon));
    payload.favicon = Some(String::new());
    assert_eq!(screen(&payload, 760), Err(Rejection::ProtocolMismatch));
}

#[test]
fn filter_takes_an_empty_favicon_as_present() {
    let mut payload = sample_payload();
    payload.favicon = Some(String::new());
    assert!(accepts(&payload, 760));
}

#[test]
fn favicon_prefix_is_skipped_by_length() {
    assert_eq!(skip_favicon_prefix("data:image/png;base64,AAAA"), Some(&b"AAAA"[..]));
    assert_eq!(skip_favicon_prefix("0123456789012345678901QUJD"), Some(&b"QUJD"[..]));
    assert_eq!(skip_favicon_prefix("data:image/png;base64,"), Some(&b""[..]));
    assert_eq!(skip_favicon_prefix("data:image/png;base64"), None);
    assert_eq!(skip_favicon_prefix(""), None);
}

#[test]
fn favicon_image_decodes_the_body() {
    assert_eq!(favicon_image("data:image/png;base64,AAAA"), Ok(vec![0, 0, 0]));
    assert_eq!(favicon_image("data:image/png;base64,QUJD"), Ok(vec![b'A', b'B', b'C']));
    assert_eq!(favicon_image("data:image/png;base64,aGk="), Ok(vec![b'h', b'i']));
    assert_eq!(favicon_image("data:image/png;base64,"), Ok(vec![]));
}

#[test]
fn favicon_image_fails_on_short_favicon() {
    assert_eq!(favicon_image("data:image/png"), Err(ProbeError::FaviconDecodeError));
    assert_eq!(favicon_image(""), Err(ProbeError::FaviconDecodeError));
}

#[test]
fn favicon_image_fails_on_bad_base64() {
    assert_eq!(favicon_image("data:image/png;base64,A"), Err(ProbeError::FaviconDecodeError));
    assert_eq!(favicon_image("data:image/png;base64,!!!!"), Err(ProbeError::FaviconDecodeError));
    assert_eq!(
        favicon_image("data:image/png;base64,\u{e9}\u{e9}"),
        Err(ProbeError::FaviconDecodeError)
    );
}

#[test]
fn decoded_outcome_maps_to_image_or_error() {
    assert_eq!(image_from_decoded(Ok(vec![1, 2, 3])), Ok(vec![1, 2, 3]));
    assert_eq!(image_from_decoded(Ok(vec![])), Ok(vec![]));
    assert_eq!(
        image_from_decoded(Err(base64::DecodeError::InvalidLength)),
        Err(ProbeError::FaviconDecodeError)
    );
    assert_eq!(
        image_from_decoded(Err(base64::DecodeError::InvalidByte(0, b'!'))),
        Err(ProbeError::FaviconDecodeError)
    );
}

#[test]
fn artifact_paths_are_keyed_by_host() {
    assert_eq!(payload_path("10.0.0.1"), "data/10.0.0.1.json");
    assert_eq!(image_path("10.0.0.1"), "data/10.0.0.1.png");
    assert_eq!(payload_path(""), "data/.json");
}
