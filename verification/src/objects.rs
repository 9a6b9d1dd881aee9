//! The data model: one type for each JSON object of the Spotify Web API, with
//! the fields of the documented schema. The types are plain data; nothing is
//! enforced of a value beyond its shape.

use vstd::prelude::*;

verus! {

/// The album object of the Web API.
#[derive(Clone, Debug, PartialEq, Eq)]
pub struct AlbumObject {
    /// The type of the album.
    pub album_type: String,
    /// The artists of the album.
    pub artists: Vec<ArtistObject>,
    /// The markets in which the album is available.
    pub available_markets: Vec<String>,
    /// The copyright statements of the album.
    pub copyrights: Vec<CopyrightObject>,
    /// Known external IDs for the album.
    pub external_ids: ExternalIdObject,
    /// Known external URLs for this album.
    pub external_urls: ExternalUrlObject,
    /// A list of the genres used to classify the album.
    pub genres: Vec<String>,
    /// A link to the Web API endpoint providing full details of the album.
    pub href: String,
    /// The Spotify ID for the album.
    pub id: String,
    /// The cover art for the album in various sizes, widest first.
    pub images: Vec<ImageObject>,
    /// The label for the album.
    pub label: String,
    /// The name of the album.
    pub name: String,
    /// The popularity of the album.
    pub popularity: usize,
    /// The date the album was first released, for example "1981-12-15".
    pub release_date: String,
    /// The precision with which release_date value is known.
    pub release_date_precision: String,
    /// Included in the response when a content restriction is applied.
    pub restrictions: AlbumRestrictionObject,
    /// The tracks of the album.
    pub tracks: Vec<SimplifiedTrackObject>,
    /// The object type.
    pub _type: String,
    /// The Spotify URI for the album.
    pub uri: String,
}

/// The album restriction object of the Web API.
#[derive(Clone, Debug, PartialEq, Eq)]
pub struct AlbumRestrictionObject {
    /// The reason for the restriction.
    pub reason: String,
}

/// The artist object of the Web API.
#[derive(Clone, Debug, PartialEq, Eq)]
pub struct ArtistObject {
    /// Known external URLs for this artist.
    pub external_urls: ExternalUrlObject,
    /// Information about the followers of the artist.
    pub followers: Option<FollowersObject>,
    /// A list of the genres the artist is associated with.
    pub genres: Option<Vec<String>>,
    /// A link to the Web API endpoint providing full details of the artist.
    pub href: String,
    /// The Spotify ID for the artist.
    pub id: String,
    /// Images of the artist in various sizes, widest first.
    pub images: Vec<ImageObject>,
    /// The name of the artist.
    pub name: String,
    /// The popularity of the artist.
    pub popularity: usize,
    /// The object type.
    pub _type: String,
    /// The Spotify URI for the artist.
    pub uri: String,
}

/// The audio features object of the Web API.
#[derive(Clone, Debug, PartialEq, Eq)]
pub struct AudioFeaturesObject {
    /// A confidence measure from 0.0 to 1.0 of whether the track is acoustic.
    pub acousticness: usize,
    /// An HTTP URL to access the full audio analysis of this track.
    pub analysis_url: String,
    /// Danceability describes how suitable a track is for dancing based on a combination of musical elements including tempo, rhythm stability, beat.
    pub danceability: usize,
    /// The duration of the track in milliseconds.
    pub duration_ms: usize,
    /// Energy is a measure from 0.0 to 1.0 and represents a perceptual measure of intensity and activity.
    pub energy: usize,
    /// The Spotify ID for the track.
    pub id: String,
    /// Predicts whether a track contains no vocals.
    pub instrumentalness: usize,
    /// The key the track is in.
    pub key: usize,
    /// Detects the presence of an audience in the recording.
    pub liveness: usize,
    /// The overall loudness of a track in decibels (dB).
    pub loudness: usize,
    /// Mode indicates the modality (major or minor) of a track, the type of scale from which its melodic content is derived.
    pub mode: usize,
    /// Speechiness detects the presence of spoken words in a track.
    pub speechiness: usize,
    /// The overall estimated tempo of a track in beats per minute (BPM).
    pub tempo: usize,
    /// An estimated overall time signature of a track.
    pub time_signature: usize,
    /// A link to the Web API endpoint providing full details of the track.
    pub track_href: String,
    /// The object type.
    pub _type: String,
    /// The Spotify URI for the track.
    pub uri: String,
    /// A measure from 0.0 to 1.0 describing the musical positiveness conveyed by a track.
    pub valence: usize,
}

/// The category object of the Web API.
#[derive(Clone, Debug, PartialEq, Eq)]
pub struct CategoryObject {
    /// A link to the Web API endpoint returning full details of the category.
    pub href: String,
    /// The category icon, in various sizes.
    pub icons: Vec<ImageObject>,
    /// The Spotify category ID of the category.
    pub id: String,
    /// The name of the category.
    pub name: String,
}

/// The context object of the Web API.
#[derive(Clone, Debug, PartialEq, Eq)]
pub struct ContextObject {
    /// External URLs for this context.
    pub external_urls: ExternalUrlObject,
    /// A link to the Web API endpoint providing full details of the track.
    pub href: String,
    /// The object type, e.g.
    pub _type: String,
    /// The Spotify URI for the context.
    pub uri: String,
}

/// The copyright object of the Web API.
#[derive(Clone, Debug, PartialEq, Eq)]
pub struct CopyrightObject {
    /// The copyright text for this content.
    pub text: String,
    /// The type of copyright.
    pub _type: String,
}

/// The currently playing context object of the Web API.
#[derive(Clone, Debug, PartialEq, Eq)]
pub struct CurrentlyPlayingContextObject {
    /// Allows to update the user interface based on which playback actions are available within the current context.
    pub actions: DisallowsObject,
    /// A Context Object.
    pub context: ContextObject,
    /// The object type of the currently playing item.
    pub currently_playing_type: String,
    /// The device that is currently active.
    pub device: DeviceObject,
    /// If something is currently playing, return `true`.
    pub is_playing: bool,
    /// The currently playing track or episode.
    pub item: PlaylistItemType<TrackObject, EpisodeObject>,
    /// Progress into the currently playing track or episode.
    pub progress_ms: usize,
    /// off, track, context.
    pub repeat_state: String,
    /// If shuffle is on or off.
    pub shuffle_state: String,
    /// Unix Millisecond Timestamp when data was fetched.
    pub timestamp: usize,
}

/// The currently playing object of the Web API.
#[derive(Clone, Debug, PartialEq, Eq)]
pub struct CurrentlyPlayingObject {
    /// A Context Object.
    pub context: ContextObject,
    /// The object type of the currently playing item.
    pub currently_playing_type: String,
    /// If something is currently playing, return `true`.
    pub is_playing: bool,
    /// The currently playing track or episode.
    pub item: PlaylistItemType<TrackObject, EpisodeObject>,
    /// Progress into the currently playing track or episode.
    pub progress_ms: usize,
    pub shuffle_state: String,
    /// Unix Millisecond Timestamp when data was fetched.
    pub timestamp: usize,
}

/// The cursor object of the Web API.
#[derive(Clone, Debug, PartialEq, Eq)]
pub struct CursorObject {
    /// The cursor to use as key to find the next page of items.
    pub after: String,
}

/// The cursor paging object of the Web API.
#[derive(Clone, Debug, PartialEq, Eq)]
pub struct CursorPagingObject {
    /// The cursors used to find the next set of items.
    pub cursors: CursorObject,
    /// A link to the Web API endpoint returning the full result of the request.
    pub href: String,
    /// The requested data.
    pub limit: usize,
    /// URL to the next page of items.
    pub next: String,
    /// The total number of items available to return.
    pub total: usize,
}

/// The device object of the Web API.
#[derive(Clone, Debug, PartialEq, Eq)]
pub struct DeviceObject {
    /// The device ID.
    pub id: String,
    /// If this device is the currently active device.
    pub is_active: bool,
    /// If this device is currently in a private session.
    pub is_private_session: bool,
    /// Whether controlling this device is restricted.
    pub is_restricted: bool,
    /// The name of the device.
    pub name: String,
    /// Device type, such as "computer", "smartphone" or "speaker".
    pub _type: String,
    /// The current volume in percent.
    pub volume_percent: usize,
}

/// The devices object of the Web API.
#[derive(Clone, Debug, PartialEq, Eq)]
pub struct DevicesObject {
    /// A list of 0..n Device objects.
    pub devices: Vec<DeviceObject>,
}

/// The disallows object of the Web API.
#[derive(Clone, Debug, PartialEq, Eq)]
pub struct DisallowsObject {
    /// Interrupting playback.
    pub interrupting_playback: Option<bool>,
    /// Pausing.
    pub pausing: Option<bool>,
    /// Resuming.
    pub resuming: Option<bool>,
    /// Seeking playback location.
    pub seeking: Option<bool>,
    /// Skipping to the next context.
    pub skipping_next: Option<bool>,
    /// Skipping to the previous context.
    pub skipping_prev: Option<bool>,
    /// Toggling repeat context flag.
    pub toggling_repeat_context: Option<bool>,
    /// Toggling repeat track flag.
    pub toggling_repeat_track: Option<bool>,
    /// Toggling shuffle flag.
    pub toggling_shuffle: Option<bool>,
    /// Transfering playback between devices.
    pub transferring_playback: Option<bool>,
}

/// The episode object of the Web API.
#[derive(Clone, Debug, PartialEq, Eq)]
pub struct EpisodeObject {
    /// A URL to a 30 second preview (MP3 format) of the episode.
    pub audio_preview_url: String,
    /// A description of the episode.
    pub description: String,
    /// The episode length in milliseconds.
    pub duration_ms: usize,
    /// Whether or not the episode has explicit content (true = yes it does; false = no it does not OR unknown).
    pub explicit: bool,
    /// External URLs for this episode.
    pub external_urls: ExternalUrlObject,
    /// A link to the Web API endpoint providing full details of the episode.
    pub href: String,
    /// A description of the episode.
    pub html_description: String,
    /// The Spotify ID for the episode.
    pub id: String,
    /// The cover art for the episode in various sizes, widest first.
    pub images: Vec<ImageObject>,
    /// True if the episode is hosted outside of Spotify's CDN.
    pub is_externally_hosted: bool,
    /// True if the episode is playable in the given market.
    pub is_playable: bool,
    pub language: String,
    /// A list of the languages used in the episode, identified by their ISO 639 code.
    pub languages: Vec<String>,
    /// The name of the episode.
    pub name: String,
    /// The date the episode was first released, for example `"1981-12-15"`.
    pub release_date: String,
    /// The precision with which `release_date` value is known.
    pub release_date_precision: String,
    /// Included in the response when a content restriction is applied.
    pub restrictions: EpisodeRestrictionObject,
    /// The user's most recent position in the episode.
    pub resume_point: ResumePointObject,
    /// The show on which the episode belongs.
    pub show: SimplifiedShowObject,
    /// The object type.
    pub _type: String,
    /// The Spotify URI for the episode.
    pub uri: String,
}

/// The episode restriction object of the Web API.
#[derive(Clone, Debug, PartialEq, Eq)]
pub struct EpisodeRestrictionObject {
    /// The reason for the restriction.
    pub reason: String,
}

/// The envelope in which the API reports an error.
#[derive(Clone, Debug, PartialEq, Eq)]
pub struct ErrorJSON {
    pub error: ErrorObject,
}

/// The error object of the Web API.
#[derive(Clone, Debug, PartialEq, Eq)]
pub struct ErrorObject {
    /// A short description of the cause of the error.
    pub message: String,
    /// The HTTP status code (also returned in the response header; see Response Status Codes for more information).
    pub status: usize,
}

/// The explicit content settings object of the Web API.
#[derive(Clone, Debug, PartialEq, Eq)]
pub struct ExplicitContentSettingsObject {
    /// When `true`, indicates that explicit content should not be played.
    pub filter_enabled: bool,
    /// When `true`, indicates that the explicit content setting is locked and can't be changed by the user.
    pub filter_locked: bool,
}

/// The external id object of the Web API.
#[derive(Clone, Debug, PartialEq, Eq)]
pub struct ExternalIdObject {
    /// International Article Number.
    pub ean: String,
    /// International Standard Recording Code.
    pub isrc: String,
    /// Universal Product Code.
    pub upc: String,
}

/// The external url object of the Web API.
#[derive(Clone, Debug, PartialEq, Eq)]
pub struct ExternalUrlObject {
    /// The Spotify URL for the object.
    pub spotify: String,
}

/// The followers object of the Web API.
#[derive(Clone, Debug, PartialEq, Eq)]
pub struct FollowersObject {
    /// A link to the Web API endpoint providing full details of the followers; `null` if not available.
    pub href: String,
    /// The total number of followers.
    pub total: usize,
}

/// The image object of the Web API.
#[derive(Clone, Debug, PartialEq, Eq)]
pub struct ImageObject {
    /// The image height in pixels.
    pub height: Option<u32>,
    /// The source URL of the image.
    pub url: String,
    /// The image width in pixels.
    pub width: Option<u32>,
}

/// The linked track object of the Web API.
#[derive(Clone, Debug, PartialEq, Eq)]
pub struct LinkedTrackObject {
    /// Known external URLs for this track.
    pub external_urls: ExternalUrlObject,
    /// A link to the Web API endpoint providing full details of the track.
    pub href: String,
    /// The Spotify ID for the track.
    pub id: String,
    /// The object type.
    pub _type: String,
    /// The Spotify URI for the track.
    pub uri: String,
}

/// The paging object of the Web API.
#[derive(Clone, Debug, PartialEq, Eq)]
pub struct PagingObject {
    /// A link to the Web API endpoint returning the full result of the request.
    pub href: String,
    /// The requested data.
    pub limit: usize,
    /// URL to the next page of items.
    pub next: String,
    /// The offset of the items returned (as set in the query or by default).
    pub offset: usize,
    /// URL to the previous page of items.
    pub previous: String,
    /// The total number of items available to return.
    pub total: usize,
}

/// The play history object of the Web API.
#[derive(Clone, Debug, PartialEq, Eq)]
pub struct PlayHistoryObject {
    /// The context the track was played from.
    pub context: ContextObject,
    /// The date and time the track was played.
    pub track: SimplifiedTrackObject,
}

/// The player error object of the Web API.
#[derive(Clone, Debug, PartialEq, Eq)]
pub struct PlayerErrorObject {
    pub message: String,
    pub reason: String,
    /// The HTTP status code.
    pub status: usize,
}

/// The playlist object of the Web API.
#[derive(Clone, Debug, PartialEq, Eq)]
pub struct PlaylistObject {
    /// `true` if the owner allows other users to modify the playlist.
    pub collaborative: bool,
    /// The playlist description.
    pub description: String,
    /// Known external URLs for this playlist.
    pub external_urls: ExternalUrlObject,
    /// Information about the followers of the playlist.
    pub followers: FollowersObject,
    /// A link to the Web API endpoint providing full details of the playlist.
    pub href: String,
    /// The Spotify ID for the playlist.
    pub id: String,
    /// Images for the playlist.
    pub images: Vec<ImageObject>,
    /// The name of the playlist.
    pub name: String,
    /// The user who owns the playlist.
    pub owner: PublicUserObject,
    /// The playlist's public/private status.
    pub public: bool,
    /// The version identifier for the current playlist.
    pub snapshot_id: String,
    /// Information about the tracks of the playlist.
    pub tracks: Vec<PlaylistTrackObject>,
    /// The object type.
    pub _type: String,
    /// The Spotify URI for the playlist.
    pub uri: String,
}

/// The playlist track object of the Web API.
#[derive(Clone, Debug, PartialEq, Eq)]
pub struct PlaylistTrackObject {
    /// The date and time the track or episode was added.
    pub added_by: PublicUserObject,
    /// Whether this track or episode is a local file or not.
    pub is_local: bool,
    /// Information about the track or episode.
    pub track: PlaylistItemType<TrackObject, EpisodeObject>,
}

/// What stands in a slot that holds either a track or an episode.
#[derive(Clone, Debug, PartialEq, Eq)]
pub enum PlaylistItemType<T, E> {
    /// A track.
    Track(T),
    /// An episode.
    Episode(E),
}

/// The playlist tracks ref object of the Web API.
#[derive(Clone, Debug, PartialEq, Eq)]
pub struct PlaylistTracksRefObject {
    /// A link to the Web API endpoint where full details of the playlist's tracks can be retrieved.
    pub href: String,
    /// Number of tracks in the playlist.
    pub total: usize,
}

/// The private user object of the Web API.
#[derive(Clone, Debug, PartialEq, Eq)]
pub struct PrivateUserObject {
    /// The country of the user, as set in the user's account profile.
    pub country: String,
    /// The name displayed on the user's profile.
    pub display_name: String,
    /// The user's email address, as entered by the user when creating their account.
    pub email: String,
    /// The user's explicit content settings.
    pub explicit_content: ExplicitContentSettingsObject,
    /// Known external URLs for this user.
    pub external_urls: ExternalUrlObject,
    /// Information about the followers of the user.
    pub followers: FollowersObject,
    /// A link to the Web API endpoint for this user.
    pub href: String,
    /// The Spotify user ID for the user.
    pub id: String,
    /// The user's profile image.
    pub images: Vec<ImageObject>,
    /// The user's Spotify subscription level.
    pub product: String,
    /// The object type.
    pub _type: String,
    /// The Spotify URI for the user.
    pub uri: String,
}

/// The public user object of the Web API.
#[derive(Clone, Debug, PartialEq, Eq)]
pub struct PublicUserObject {
    /// The name displayed on the user's profile.
    pub display_name: String,
    /// Known public external URLs for this user.
    pub external_urls: ExternalUrlObject,
    /// Information about the followers of this user.
    pub followers: FollowersObject,
    /// A link to the Web API endpoint for this user.
    pub href: String,
    /// The Spotify user ID for this user.
    pub id: String,
    /// The user's profile image.
    pub images: Vec<ImageObject>,
    /// The object type.
    pub _type: String,
    /// The Spotify URI for this user.
    pub uri: String,
}

/// The recommendation seed object of the Web API.
#[derive(Clone, Debug, PartialEq, Eq)]
pub struct RecommendationSeedObject {
    /// The number of tracks available after min_* and max_* filters have been applied.
    pub after_filtering_size: usize,
    /// The number of tracks available after relinking for regional availability.
    pub after_relinking_size: usize,
    /// A link to the full track or artist data for this seed.
    pub href: String,
    /// The id used to select this seed.
    pub id: String,
    /// The number of recommended tracks available for this seed.
    pub initial_pool_size: usize,
    /// The entity type of this seed.
    pub _type: String,
}

/// The recommendations object of the Web API.
#[derive(Clone, Debug, PartialEq, Eq)]
pub struct RecommendationsObject {
    /// An array of recommendation seed objects.
    pub seeds: Vec<RecommendationSeedObject>,
    /// An array of track object (simplified) ordered according to the parameters supplied.
    pub tracks: Vec<SimplifiedTrackObject>,
}

/// The resume point object of the Web API.
#[derive(Clone, Debug, PartialEq, Eq)]
pub struct ResumePointObject {
    /// Whether or not the episode has been fully played by the user.
    pub fully_played: bool,
    /// The user's most recent position in the episode in milliseconds.
    pub resume_position_ms: usize,
}

/// The saved album object of the Web API.
#[derive(Clone, Debug, PartialEq, Eq)]
pub struct SavedAlbumObject {
    /// The date and time the album was saved Timestamps are returned in ISO 8601 format as Coordinated Universal Time (UTC) with a zero offset.
    pub added_at: String,
    /// Information about the album.
    pub album: AlbumObject,
}

/// The saved episode object of the Web API.
#[derive(Clone, Debug, PartialEq, Eq)]
pub struct SavedEpisodeObject {
    /// The date and time the episode was saved.
    pub added_at: String,
    /// Information about the episode.
    pub episode: EpisodeObject,
}

/// The saved show object of the Web API.
#[derive(Clone, Debug, PartialEq, Eq)]
pub struct SavedShowObject {
    /// The date and time the show was saved.
    pub added_at: String,
    /// Information about the show.
    pub show: SimplifiedShowObject,
}

/// The saved track object of the Web API.
#[derive(Clone, Debug, PartialEq, Eq)]
pub struct SavedTrackObject {
    /// The date and time the track was saved.
    pub added_at: String,
    /// Information about the track.
    pub track: TrackObject,
}

/// The show object of the Web API.
#[derive(Clone, Debug, PartialEq, Eq)]
pub struct ShowObject {
    /// A list of the countries in which the show can be played, identified by their ISO 3166-1 alpha-2 code.
    pub available_markets: Vec<String>,
    /// The copyright statements of the show.
    pub copyrights: Vec<CopyrightObject>,
    /// A description of the show.
    pub description: String,
    /// A list of the show's episodes.
    pub episodes: Vec<SimplifiedEpisodeObject>,
    /// Whether or not the show has explicit content (true = yes it does; false = no it does not OR unknown).
    pub explicit: bool,
    /// External URLs for this show.
    pub external_urls: ExternalUrlObject,
    /// A link to the Web API endpoint providing full details of the show.
    pub href: String,
    /// The Spotify ID for the show.
    pub id: String,
    /// The cover art for the show in various sizes, widest first.
    pub images: Vec<ImageObject>,
    /// True if all of the show's episodes are hosted outside of Spotify's CDN.
    pub is_externally_hosted: bool,
    /// A list of the languages used in the show, identified by their ISO 639 code.
    pub languages: Vec<String>,
    /// The media type of the show.
    pub media_type: String,
    /// The name of the episode.
    pub name: String,
    /// The publisher of the show.
    pub publisher: String,
    /// The object type.
    pub _type: String,
    /// The Spotify URI for the show.
    pub uri: String,
}

/// The simplified album object of the Web API.
#[derive(Clone, Debug, PartialEq, Eq)]
pub struct SimplifiedAlbumObject {
    /// The type of the album.
    pub album_type: String,
    /// The artists of the album.
    pub artists: Vec<ArtistObject>,
    /// The markets in which the album is available.
    pub available_markets: Vec<String>,
    /// Known external URLs for this album.
    pub external_urls: ExternalUrlObject,
    /// A link to the Web API endpoint providing full details of the album.
    pub href: String,
    /// The Spotify ID for the album.
    pub id: String,
    /// The cover art for the album in various sizes, widest first.
    pub images: Vec<ImageObject>,
    /// The name of the album.
    pub name: String,
    /// The date the album was first released, for example "1981-12-15".
    pub release_date: String,
    /// The precision with which release_date value is known.
    pub release_date_precision: String,
    /// Included in the response when a content restriction is applied.
    pub restrictions: AlbumRestrictionObject,
    /// The object type.
    pub _type: String,
    /// The Spotify URI for the album.
    pub uri: String,
}

/// The simplified artist object of the Web API.
#[derive(Clone, Debug, PartialEq, Eq)]
pub struct SimplifiedArtistObject {
    /// Known external URLs for this artist.
    pub external_urls: ExternalUrlObject,
    /// A link to the Web API endpoint providing full details of the artist.
    pub href: String,
    /// The Spotify ID for the artist.
    pub id: String,
    /// The name of the artist.
    pub name: String,
    /// The object type.
    pub _type: String,
    /// The Spotify URI for the artist.
    pub uri: String,
}

/// The simplified episode object of the Web API.
#[derive(Clone, Debug, PartialEq, Eq)]
pub struct SimplifiedEpisodeObject {
    /// A URL to a 30 second preview (MP3 format) of the episode.
    pub audio_preview_url: String,
    /// A description of the episode.
    pub description: String,
    /// The episode length in milliseconds.
    pub duration_ms: usize,
    /// Whether or not the episode has explicit content (true = yes it does; false = no it does not OR unknown).
    pub explicit: bool,
    /// External URLs for this episode.
    pub external_urls: ExternalUrlObject,
    /// A link to the Web API endpoint providing full details of the episode.
    pub href: String,
    /// A description of the episode.
    pub html_description: String,
    /// The Spotify ID for the episode.
    pub id: String,
    /// The cover art for the episode in various sizes, widest first.
    pub images: Vec<ImageObject>,
    /// True if the episode is hosted outside of Spotify's CDN.
    pub is_externally_hosted: bool,
    /// True if the episode is playable in the given market.
    pub is_playable: bool,
    pub language: String,
    /// A list of the languages used in the episode, identified by their ISO 639 code.
    pub languages: Vec<String>,
    /// The name of the episode.
    pub name: String,
    /// The date the episode was first released, for example `"1981-12-15"`.
    pub release_date: String,
    /// The precision with which `release_date` value is known.
    pub release_date_precision: String,
    /// Included in the response when a content restriction is applied.
    pub restrictions: EpisodeRestrictionObject,
    /// The user's most recent position in the episode.
    pub resume_point: ResumePointObject,
    /// The object type.
    pub _type: String,
    /// The Spotify URI for the episode.
    pub uri: String,
}

/// The simplified playlist object of the Web API.
#[derive(Clone, Debug, PartialEq, Eq)]
pub struct SimplifiedPlaylistObject {
    /// `true` if the owner allows other users to modify the playlist.
    pub collaborative: bool,
    /// The playlist description.
    pub description: String,
    /// Known external URLs for this playlist.
    pub external_urls: ExternalUrlObject,
    /// A link to the Web API endpoint providing full details of the playlist.
    pub href: String,
    /// The Spotify ID for the playlist.
    pub id: String,
    /// Images for the playlist.
    pub images: Vec<ImageObject>,
    /// The name of the playlist.
    pub name: String,
    /// The user who owns the playlist.
    pub owner: PublicUserObject,
    /// The playlist's public/private status.
    pub public: bool,
    /// The version identifier for the current playlist.
    pub snapshot_id: String,
    /// Information about the tracks of the playlist.
    pub tracks: Vec<PlaylistTrackObject>,
    /// The object type.
    pub _type: String,
    /// The Spotify URI for the playlist.
    pub uri: String,
}

/// The simplified show object of the Web API.
#[derive(Clone, Debug, PartialEq, Eq)]
pub struct SimplifiedShowObject {
    /// A list of the countries in which the show can be played, identified by their ISO 3166-1 alpha-2 code.
    pub available_markets: Vec<String>,
    /// The copyright statements of the show.
    pub copyrights: Vec<CopyrightObject>,
    /// A description of the show.
    pub description: String,
    /// Whether or not the show has explicit content (true = yes it does; false = no it does not OR unknown).
    pub explicit: bool,
    /// External URLs for this show.
    pub external_urls: ExternalUrlObject,
    /// A link to the Web API endpoint providing full details of the show.
    pub href: String,
    /// The Spotify ID for the show.
    pub id: String,
    /// The cover art for the show in various sizes, widest first.
    pub images: Vec<ImageObject>,
    /// True if all of the show's episodes are hosted outside of Spotify's CDN.
    pub is_externally_hosted: bool,
    /// A list of the languages used in the show, identified by their ISO 639 code.
    pub languages: Vec<String>,
    /// The media type of the show.
    pub media_type: String,
    /// The name of the episode.
    pub name: String,
    /// The publisher of the show.
    pub publisher: String,
    /// The object type.
    pub _type: String,
    /// The Spotify URI for the show.
    pub uri: String,
}

/// The simplified track object of the Web API.
#[derive(Clone, Debug, PartialEq, Eq)]
pub struct SimplifiedTrackObject {
    /// The artists who performed the track.
    pub artists: Vec<ArtistObject>,
    /// A list of the countries in which the track can be played, identified by their ISO 3166-1 alpha-2 code.
    pub available_markets: Vec<String>,
    /// The disc number (usually `1` unless the album consists of more than one disc).
    pub disc_number: usize,
    /// The track length in milliseconds.
    pub duration_ms: usize,
    /// Whether or not the track has explicit lyrics (`true` = yes it does; `false` = no it does not OR unknown).
    pub explicit: bool,
    /// Known external URLs for this track.
    pub external_urls: ExternalUrlObject,
    /// A link to the Web API endpoint providing full details of the track.
    pub href: String,
    /// The Spotify ID for the track.
    pub id: String,
    /// Whether or not the track is from a local file.
    pub is_local: bool,
    /// Part of the response when Track Relinking is applied.
    pub is_playable: bool,
    /// Part of the response when Track Relinking is applied, and the requested track has been replaced with different track.
    pub linked_from: LinkedFrom,
    /// The name of the track.
    pub name: String,
    /// A link to a 30 second preview (MP3 format) of the track.
    pub preview_url: String,
    /// Included in the response when a content restriction is applied.
    pub restrictions: TrackRestrictionObject,
    /// The number of the track.
    pub track_number: usize,
    /// The object type.
    pub _type: String,
    /// The Spotify URI for the track.
    pub uri: String,
}

/// The track object of the Web API.
#[derive(Clone, Debug, PartialEq, Eq)]
pub struct TrackObject {
    /// The album on which the track appears.
    pub album: SimplifiedAlbumObject,
    /// The artists who performed the track.
    pub artists: Vec<ArtistObject>,
    /// A list of the countries in which the track can be played, identified by their ISO 3166-1 alpha-2 code.
    pub available_markets: Vec<String>,
    /// The disc number (usually `1` unless the album consists of more than one disc).
    pub disc_number: usize,
    /// The track length in milliseconds.
    pub duration_ms: usize,
    /// Whether or not the track has explicit lyrics ( `true` = yes it does; `false` = no it does not OR unknown).
    pub explicit: bool,
    /// Known external IDs for the track.
    pub external_ids: ExternalIdObject,
    /// Known external URLs for this track.
    pub external_urls: ExternalUrlObject,
    /// A link to the Web API endpoint providing full details of the track.
    pub href: String,
    /// The Spotify ID for the track.
    pub id: String,
    /// Whether or not the track is from a local file.
    pub is_local: bool,
    /// Part of the response when Track Relinking is applied.
    pub is_playable: bool,
    /// Part of the response when Track Relinking is applied, and the requested track has been replaced with different track.
    pub linked_from: LinkedFrom,
    /// The name of the track.
    pub name: String,
    /// The popularity of the track.
    pub popularity: usize,
    /// A link to a 30 second preview (MP3 format) of the track.
    pub preview_url: String,
    /// Included in the response when a content restriction is applied.
    pub restrictions: TrackRestrictionObject,
    /// The number of the track.
    pub track_number: usize,
    /// The object type.
    pub _type: String,
    /// The Spotify URI for the track.
    pub uri: String,
}

/// The track that a relinked track was linked from.
#[derive(Clone, Debug, PartialEq, Eq)]
pub struct LinkedFrom {
    pub external_urls: ExternalUrlObject,
    pub href: String,
    pub id: String,
    pub _type: String,
    pub uri: String,
}

/// The track restriction object of the Web API.
#[derive(Clone, Debug, PartialEq, Eq)]
pub struct TrackRestrictionObject {
    /// The reason for the restriction.
    pub reason: String,
}

/// The tuneable track object of the Web API.
#[derive(Clone, Debug, PartialEq, Eq)]
pub struct TuneableTrackObject {
    /// A confidence measure from 0.0 to 1.0 of whether the track is acoustic.
    pub acousticness: usize,
    /// Danceability describes how suitable a track is for dancing based on a combination of musical elements including tempo, rhythm stability, beat.
    pub danceability: usize,
    /// The duration of the track in milliseconds.
    pub duration_ms: usize,
    /// Energy is a measure from 0.0 to 1.0 and represents a perceptual measure of intensity and activity.
    pub energy: usize,
    /// Predicts whether a track contains no vocals.
    pub instrumentalness: usize,
    /// The key the track is in.
    pub key: usize,
    /// Detects the presence of an audience in the recording.
    pub liveness: usize,
    /// The overall loudness of a track in decibels (dB).
    pub loudness: usize,
    /// Mode indicates the modality (major or minor) of a track, the type of scale from which its melodic content is derived.
    pub mode: usize,
    /// The popularity of the track.
    pub popularity: usize,
    /// Speechiness detects the presence of spoken words in a track.
    pub speechiness: usize,
    /// The overall estimated tempo of a track in beats per minute (BPM).
    pub tempo: usize,
    /// An estimated overall time signature of a track.
    pub time_signature: usize,
    /// A measure from 0.0 to 1.0 describing the musical positiveness conveyed by a track.
    pub valence: usize,
}

} // verus!
