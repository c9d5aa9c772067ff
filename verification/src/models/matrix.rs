//! Event names and payloads exchanged with the UI layer.

use vstd::prelude::*;

verus! {

/// The events that the core listens for from the UI layer.
#[derive(Clone, Copy, Debug, PartialEq, Eq, Structural, Hash)]
pub enum MatrixSvelteListenEvent {
    /// The UI finished setting up the rooms-collection store.
    RoomsCollectionStarted,
    /// The UI finished setting up one room's store.
    RoomCreated,
    /// The user answered an emoji-verification prompt.
    VerificationResult,
    /// The user opened or closed a room.
    MatrixUpdateCurrentActiveRoom,
}

impl MatrixSvelteListenEvent {
    /// The event's name on the wire.
    pub fn as_str(&self) -> (r: &'static str)
        ensures
            *self is RoomsCollectionStarted ==> r@ == "matrix-svelte://rooms-collection-started"@,
            *self is RoomCreated ==> r@ == "matrix-svelte://room-created"@,
            *self is VerificationResult ==> r@ == "matrix-svelte://verification-result"@,
            *self is MatrixUpdateCurrentActiveRoom ==> r@
                == "matrix-svelte://update-current-active-room"@,
    {
        match self {
            MatrixSvelteListenEvent::RoomsCollectionStarted => {
                "matrix-svelte://rooms-collection-started"
            }
            MatrixSvelteListenEvent::RoomCreated => "matrix-svelte://room-created",
            MatrixSvelteListenEvent::VerificationResult => "matrix-svelte://verification-result",
            MatrixSvelteListenEvent::MatrixUpdateCurrentActiveRoom => {
                "matrix-svelte://update-current-active-room"
            }
        }
    }
}

/// The UI's answer to an emoji-verification prompt.
#[derive(Clone, Debug)]
pub struct MatrixVerificationResponse {
    /// Whether the user confirmed that the emoji matched.
    pub confirmed: bool,
}

/// The UI's acknowledgement that a room store exists.
#[derive(Clone, Debug)]
pub struct MatrixRoomStoreCreatedRequest {
    /// The room the store belongs to.
    pub id: String,
    /// A display message accompanying the acknowledgement.
    pub message: String,
}

/// The UI's notice that the active room changed. An absent room identifier
/// means that no room is active any more.
#[derive(Clone, Debug)]
pub struct MatrixUpdateCurrentActiveRoom {
    /// The newly active room, if any.
    pub room_id: Option<String>,
    /// Its displayable name, if known.
    pub room_name: Option<String>,
}

/// The events that the core emits towards the UI layer.
#[derive(Clone, Copy, Debug, PartialEq, Eq, Structural, Hash)]
pub enum MatrixSvelteEmitEvent {
    /// Ask the UI to create one room's store.
    RoomCreate,
    /// An emoji verification started.
    VerificationStart,
    /// A toast notification is ready to display.
    ToastNotification,
}

impl MatrixSvelteEmitEvent {
    /// The event's name on the wire.
    pub fn as_str(&self) -> (r: &'static str)
        ensures
            *self is RoomCreate ==> r@ == "matrix-svelte://room-create"@,
            *self is VerificationStart ==> r@ == "matrix-svelte://verification-start"@,
            *self is ToastNotification ==> r@ == "matrix-svelte://toast-notification"@,
    {
        match self {
            MatrixSvelteEmitEvent::RoomCreate => "matrix-svelte://room-create",
            MatrixSvelteEmitEvent::VerificationStart => "matrix-svelte://verification-start",
            MatrixSvelteEmitEvent::ToastNotification => "matrix-svelte://toast-notification",
        }
    }
}

/// The emoji sequence shown to both sides of a verification.
#[derive(Clone, Debug)]
pub struct MatrixVerificationEmojis {
    /// The emoji, already rendered as one string.
    pub emojis: String,
}

impl MatrixVerificationEmojis {
    /// Wraps a rendered emoji sequence.
    pub fn new(emojis: String) -> (r: MatrixVerificationEmojis)
        ensures
            r.emojis == emojis,
    {
        MatrixVerificationEmojis { emojis }
    }
}

/// A request towards the UI to create one room's store.
#[derive(Clone, Debug)]
pub struct MatrixRoomStoreCreateRequest {
    /// The room the store is for.
    pub id: String,
}

impl MatrixRoomStoreCreateRequest {
    /// Wraps the room identifier the store is for.
    pub fn new(id: String) -> (r: MatrixRoomStoreCreateRequest)
        ensures
            r.id == id,
    {
        MatrixRoomStoreCreateRequest { id }
    }
}

/// The visual flavor of a toast notification.
#[derive(Clone, Copy, Debug, PartialEq, Eq, Structural)]
pub enum ToastNotificationVariant {
    /// The plain flavor.
    Default,
    /// A toast carrying a longer description.
    Description,
    /// A success notice.
    Success,
    /// An informational notice.
    Info,
    /// A warning.
    Warning,
    /// An error notice.
    Error,
}

/// A toast notification to display in the UI.
#[derive(Clone, Debug)]
pub struct ToastNotificationRequest {
    /// The headline.
    pub message: String,
    /// A longer description, if any.
    pub description: Option<String>,
    /// The visual flavor.
    pub variant: ToastNotificationVariant,
}

impl ToastNotificationRequest {
    /// Builds a toast notification. A toast that carries a description is
    /// always shown with the description flavor, whatever was asked for.
    pub fn new(
        message: String,
        description: Option<String>,
        variant: ToastNotificationVariant,
    ) -> (r: ToastNotificationRequest)
        ensures
            r.message == message,
            r.description == description,
            description is Some ==> r.variant is Description,
            description is None ==> r.variant == variant,
    {
        if description.is_some() {
            ToastNotificationRequest {
                message,
                description,
                variant: ToastNotificationVariant::Description,
            }
        } else {
            ToastNotificationRequest { message, description: None, variant }
        }
    }
}

/// A chunk-by-chunk media download, as reported to the UI.
#[derive(Clone, Debug)]
pub enum MediaStreamEvent {
    /// The download began.
    Started,
    /// One chunk of data arrived.
    Chunk {
        /// The bytes of this chunk.
        data: Vec<u8>,
        /// The size of this chunk.
        chunk_size: usize,
        /// How many bytes have arrived so far.
        bytes_received: usize,
    },
    /// The download completed.
    Finished {
        /// The total number of bytes received.
        total_bytes: usize,
    },
    /// The download failed.
    Error {
        /// A description of the failure.
        message: String,
    },
}

/// A registered device of the logged-in user, as shown in the device list.
#[derive(Clone, Debug)]
pub struct FrontendDevice {
    /// The device's identifier.
    pub device_id: String,
    /// Whether the device is verified.
    pub is_verified: bool,
    /// Whether the device is verified through cross-signing.
    pub is_verified_with_cross_signing: bool,
    /// The device's displayable name, if set.
    pub display_name: Option<String>,
    /// When the device was registered, in milliseconds since the epoch.
    pub registration_date: u64,
    /// A guess at the kind of device.
    pub guessed_type: DeviceGuessedType,
    /// Whether this is the device the user is on right now.
    pub is_current_device: bool,
}

/// A guess at the kind of device, from its displayable name.
#[derive(Clone, Copy, Debug, PartialEq, Eq, Structural)]
pub enum DeviceGuessedType {
    /// An Android phone or tablet.
    Android,
    /// An iPhone or iPad.
    Ios,
    /// A web client.
    Web,
    /// A desktop client.
    Desktop,
    /// Anything else.
    Unknown,
}

} // verus!
