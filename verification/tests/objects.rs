use spotify_api::objects::{
    CopyrightObject, DeviceObject, DevicesObject, ErrorJSON, ErrorObject, ExternalUrlObject,
    FollowersObject, ImageObject, PlaylistItemType, PublicUserObject, ResumePointObject,
};

fn image(width: Option<u32>) -> ImageObject {
    ImageObject { height: width, url: "https://i.scdn.co/image/ab67".to_string(), width }
}

#[test]
fn objects_are_plain_data() {
    let user = PublicUserObject {
        display_name: "JM Wizzler".to_string(),
        external_urls: ExternalUrlObject { spotify: "https://open.spotify.com/user/wizzler".to_string() },
        followers: FollowersObject { href: String::new(), total: 3829 },
        href: "https://api.spotify.com/v1/users/wizzler".to_string(),
        id: "wizzler".to_string(),
        images: vec![image(Some(640)), image(None)],
        _type: "user".to_string(),
        uri: "spotify:user:wizzler".to_string(),
    };
    let copy = user.clone();
    assert_eq!(user, copy);
    assert_eq!(copy.followers.total, 3829);
    assert_eq!(copy.images[1].width, None);
    let mut other = user.clone();
    other._type = "artist".to_string();
    assert_ne!(user, other);
}

#[test]
fn item_slot_holds_a_track_or_an_episode() {
    let track: PlaylistItemType<u32, String> = PlaylistItemType::Track(7);
    let episode: PlaylistItemType<u32, String> = PlaylistItemType::Episode("e".to_string());
    assert_ne!(track, episode);
    assert_eq!(track.clone(), PlaylistItemType::Track(7));
    assert!(matches!(episode, PlaylistItemType::Episode(ref name) if name == "e"));
}

#[test]
fn error_envelope_holds_status_and_message() {
    let envelope = ErrorJSON { error: ErrorObject { message: "invalid id".to_string(), status: 400 } };
    assert_eq!(envelope.error.status, 400);
    assert_eq!(envelope.error.message, "invalid id");
    assert_eq!(envelope.clone(), envelope);
}

#[test]
fn small_objects_compare_by_fields() {
    let a = ResumePointObject { fully_played: false, resume_position_ms: 1500 };
    let b = ResumePointObject { fully_played: false, resume_position_ms: 1501 };
    assert_ne!(a, b);
    let c = CopyrightObject { text: "(C) 2020".to_string(), _type: "C".to_string() };
    assert_eq!(c.clone(), c);
    let device = DeviceObject {
        id: "5fbb3ba6aa454b5534c4ba43a8c7e8e45a63ad0e".to_string(),
        is_active: true,
        is_private_session: false,
        is_restricted: false,
        name: "Kitchen".to_string(),
        _type: "Speaker".to_string(),
        volume_percent: 59,
    };
    let devices = DevicesObject { devices: vec![device.clone(), device] };
    assert_eq!(devices.devices.len(), 2);
    assert_eq!(devices.devices[0], devices.devices[1]);
}
