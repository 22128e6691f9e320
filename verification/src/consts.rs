//! The enumerations and identifiers that cross the bridge.

use vstd::prelude::*;

verus! {

/// Flags that select friends by their relationship to the current user.
#[derive(Clone, Copy, Debug, PartialEq, Eq, Structural)]
pub enum EFriendFlags {
    /// No one.
    NoFlag,
    /// Users that the current user has blocked.
    Blocked,
    /// Users that have sent a friend invitation to the current user.
    FriendshipRequested,
    /// The current user's regular friends.
    Immediate,
    /// Users in the same small group as the current user.
    ClanMember,
    /// Users on the same game server.
    OnGameServer,
    /// Users that the current user has sent a friend invitation to.
    RequestingFriendship,
    /// Users whose further information is being sent.
    RequestingInfo,
    /// Users that the current user ignores.
    Ignored,
    /// Users that ignore the current user, and that the current user knows.
    IgnoredFriend,
    /// Users in the same chat.
    ChatMember,
    /// Every one of the above.
    All,
}

/// The states in which a friend can be.
#[derive(Clone, Copy, Debug, PartialEq, Eq, Structural)]
pub enum EPersonaState {
    /// Not logged on.
    Offline,
    /// Logged on.
    Online,
    /// Logged on, and not to be disturbed.
    Busy,
    /// Away.
    Away,
    /// Away for a long time.
    Snooze,
    /// Online, and trading.
    LookingToTrade,
    /// Online, and looking for a game.
    LookingToPlay,
}

/// The state flags of a workshop item on this client. An item's state is the
/// sum of the flags that hold of it.
#[derive(Clone, Copy, Debug, PartialEq, Eq, Structural)]
pub enum EItemState {
    /// The item is not tracked on this client.
    NoFlag,
    /// The current user is subscribed to the item.
    Subscribed,
    /// The item was made with the older workshop functions.
    LegacyItem,
    /// The item is installed and can be used, though it may be out of date.
    Installed,
    /// The item needs an update: it is not installed yet, or its author has
    /// changed it.
    NeedsUpdate,
    /// An update of the item is being downloaded.
    Downloading,
    /// A download of the item was asked for and has not ended.
    DownloadPending,
}

impl EItemState {
    /// The value of the flag within an item's state.
    pub open spec fn bits_spec(self) -> u32 {
        match self {
            EItemState::NoFlag => 0,
            EItemState::Subscribed => 1,
            EItemState::LegacyItem => 2,
            EItemState::Installed => 4,
            EItemState::NeedsUpdate => 8,
            EItemState::Downloading => 16,
            EItemState::DownloadPending => 32,
        }
    }

    /// The value of the flag within an item's state.
    pub fn bits(self) -> (bits: u32)
        ensures
            bits == self.bits_spec(),
    {
        match self {
            EItemState::NoFlag => 0,
            EItemState::Subscribed => 1,
            EItemState::LegacyItem => 2,
            EItemState::Installed => 4,
            EItemState::NeedsUpdate => 8,
            EItemState::Downloading => 16,
            EItemState::DownloadPending => 32,
        }
    }
}

/// Who can see a workshop item.
#[derive(Clone, Copy, Debug, PartialEq, Eq, Structural)]
pub enum ERemoteStoragePublishedFileVisibility {
    /// Everyone.
    Public,
    /// Friends of the author.
    FriendsOnly,
    /// The author alone.
    Private,
    /// Everyone, but no search lists it.
    Unlisted,
}

/// How far the update of a workshop item has come.
#[derive(Clone, Copy, Debug, PartialEq, Eq, Structural)]
pub enum EItemUpdateStatus {
    /// The update handle is not valid: the update may have ended.
    Invalid,
    /// The configuration data are being processed.
    PreparingConfig,
    /// The content files are being read and processed.
    PreparingContent,
    /// The changed content is being uploaded.
    UploadingContent,
    /// The new preview image is being uploaded.
    UploadingPreviewFile,
    /// All changes are being committed.
    CommittingChanges,
}

/// What the store page does with an application when the overlay opens it.
#[derive(Clone, Copy, Debug, PartialEq, Eq, Structural)]
pub enum EOverlayToStoreFlag {
    /// Nothing.
    NoFlag,
    /// Puts the application into the user's cart.
    AddToCart,
    /// Puts the application into the user's cart and shows the cart.
    AddToCartAndShow,
}

/// How a peer-to-peer packet is sent.
#[derive(Clone, Copy, Debug, PartialEq, Eq, Structural)]
pub enum EP2PSend {
    /// As a datagram, which may be lost or arrive out of order.
    Unreliable,
    /// As a datagram that is dropped where no connection stands yet.
    UnreliableNoDelay,
    /// Reliably and in order.
    Reliable,
    /// Reliably, gathered with other small messages before it is sent.
    ReliableWithBuffering,
}

/// Who can find and join a lobby.
#[derive(Clone, Copy, Debug, PartialEq, Eq, Structural)]
pub enum ELobbyType {
    /// Only those who are invited.
    Private,
    /// Friends and those who are invited; no search lists it.
    FriendsOnly,
    /// Everyone; searches list it and friends see it.
    Public,
    /// Everyone through a search; friends do not see it.
    Invisible,
}

/// The dialogs that the overlay can open.
#[derive(Clone, Copy, Debug, PartialEq, Eq, Structural)]
pub enum PSteamDialog {
    Friends,
    Community,
    Players,
    Settings,
    OfficialGameGroup,
    Stats,
    Achievements,
}

impl PSteamDialog {
    /// The name under which the overlay knows the dialog.
    pub open spec fn name(self) -> Seq<char> {
        match self {
            PSteamDialog::Friends => "friends"@,
            PSteamDialog::Community => "community"@,
            PSteamDialog::Players => "players"@,
            PSteamDialog::Settings => "settings"@,
            PSteamDialog::OfficialGameGroup => "officialgamegroup"@,
            PSteamDialog::Stats => "stats"@,
            PSteamDialog::Achievements => "achievements"@,
        }
    }

    /// The name under which the overlay knows the dialog.
    pub fn to_string(&self) -> (text: String)
        ensures
            text@ == self.name(),
    {
        match self {
            PSteamDialog::Friends => "friends".to_owned(),
            PSteamDialog::Community => "community".to_owned(),
            PSteamDialog::Players => "players".to_owned(),
            PSteamDialog::Settings => "settings".to_owned(),
            PSteamDialog::OfficialGameGroup => "officialgamegroup".to_owned(),
            PSteamDialog::Stats => "stats".to_owned(),
            PSteamDialog::Achievements => "achievements".to_owned(),
        }
    }
}

/// The identifier of an account, a group, a lobby or a game server, in the
/// three forms in which the host receives it.
#[derive(Clone, Debug, PartialEq, Eq)]
pub struct CSteamID {
    /// The identifier in full.
    pub steam_id64: u64,
    /// The identifier in its textual form.
    pub steam_id32: String,
    /// The number of the account within the identifier.
    pub account_id: u32,
}

} // verus!
