//! The refusals of the library. Each stands for one condition, and has a message
//! fit for the person at the screen.
use vstd::prelude::*;

verus! {

#[derive(Clone, Copy, PartialEq, Eq, Structural, Debug)]
pub enum Error {
    PairingToken,
    Fingerprint,
    VideoSettings,
    PointerCoordinates,
    UnsupportedButton,
    UnsupportedKey,
    ScrollRange,
    MonitorIndex,
    ClipboardText,
    VideoFeedback,
    VideoSize,
    FrameLimit,
    ReorderWindow,
    DuplicateGroup,
    IdentityOwner,
    IdentityPrivate,
    DirectoryOwner,
    DirectoryPrivate,
    IncompleteIdentity,
    OrphanPairing,
    PersistentToken,
    TokenMismatch,
    PairingUnreadable,
    Certificate,
    FingerprintForm,
    ChallengeEncoding,
    CredentialPolicy,
    CredentialHost,
    CredentialShape,
    CredentialSubstituted,
    AssertionShape,
    AssertionCount,
    KeyNotListed,
    NoKey,
    SeveralKeys,
    DeviceCount,
    Fido2Required,
    VerificationMissing,
    PinForm,
    AttestationFlags,
    NativeData,
    CredentialFile,
    CredentialFileGrew,
    Username,
    PasswordLength,
    PasswordNumeric,
    PasswordRepeating,
    DeviceName,
    PacketSize,
    TouchMessage,
    TouchAuthentication,
    TouchEncryption,
    CredentialResponse,
    CredentialAuthentication,
    CredentialEncryption,
    LoginPassword,
    HostIdentity,
    FingerprintText,
    AccessProtocol,
    ContextEncoding,
    LoginFailed,
    LoginUnavailable,
    LoginOrder,
    UpdateClient,
    AccessDatabase,
    StoredCredential,
    StoredSetup,
    PasswordFirst,
    CredentialRefused,
    GenerationExhausted,
    SettingsChanged,
    KeySettingsChanged,
    CounterStalled,
    DeviceNotFound,
    DeviceLimit,
    EnrollmentName,
    Unauthorized,
    TicketSpent,
    DisplayGone,
    UseHostPort,
    IncompatibleVersion,
    DesktopSize,
    MonitorMetadata,
    ImageBounds,
    NoInitialVideo,
    NoAudioOffered,
    FrameCount,
    EmptyFrame,
    ClipboardBothEnds,
    NoPortraitFrames,
    NoAudioDecoded,
    ClipboardRoundtrip,
    HeadlessTimeout,
    VideoBitrate,
    DecoderBehind,
    MissingPlugins,
    ImageStride,
    PlaneOverflow,
    PlaneTruncated,
    OddNv12,
    ProbeIdentity,
    ProbeReference,
    ProbeRgb,
    ProbeSize,
    ProbeIncomplete,
    ReducedPrecision,
    LostTransfer,
    LostPrimaries,
    NoFrameBuffer,
    EmptyFrameBuffer,
    NotMain10,
    StrideTooSmall,
    TruncatedPlane,
    OddP010,
    P010Alignment,
    OverlaySize,
    OverlayAlignment,
    NeedsHdrPresenter,
    NeedsSdrPresenter,
    EmptyWindow,
    TooManyOverlays,
    InvalidHeadroom,
    NoHeadroom,
    GpuFailed,
    SurfaceFormat,
    SurfaceColor,
    SurfaceChroma,
    SurfaceBacking,
    SurfaceRange,
    SurfacePlanes,
    SurfaceSize,
    TextureCache,
    NoIndependentStreams,
    AuxiliaryMetadata,
    NoConfirmedVideo,
    UnknownSource,
    X11OnWayland,
    PortalPermission,
    NoPortalMonitor,
    NoPortalSize,
    PortalSize,
    AudioSource,
    AudioBehind,
    ClipboardTooLong,
    ClipboardRead,
    ClipboardWrite,
    ClipboardEncoding,
    PairingCode,
    HostPortOnly,
    AddressSyntax,
    HostPortMissing,
    PairingTooLarge,
    PairingLength,
    PairingProtocol,
    PairingExchange,
    PairingProof,
    PairingExpired,
    PairingReplaced,
    PairingEncryption,
    PairingResponse,
    PairingAuthentication,
    ProfileAddress,
    ProfilePort,
    ProfileDirectory,
    CredentialRegular,
    CredentialLarge,
    CredentialPublic,
    HomeMissing,
    PairingFileExists,
    ScaledHeight,
    InputGap,
    PasswordsDiffer,
    AdminDirectory,
    AdminSocket,
    AdminPeer,
    AdminRequestLarge,
    AdminResponseLarge,
    ExistingSocket,
    SocketUnchecked,
    SocketOwned,
    PairingClosed,
    PairingOver,
    NoFont,
    AgentSocketMissing,
    AgentSocketKind,
    AgentSequence,
    AgentEmptyGroup,
    AgentEmptyPacket,
    AgentExtraFrame,
    AgentPacketSize,
    AgentOwner,
    AgentResponse,
    AgentPeer,
    SystemFrame,
    SystemCredentials,
    SystemProtocol,
    SystemLoginFailed,
    SystemReplyText,
    SystemCredential,
    SystemIdentity,
    SystemSessionCredential,
    AccountName,
    AccountPassword,
    PrivilegedHost,
    AccountUnavailable,
    AccountOwner,
    AccountAlias,
    HelperRelative,
    HelperFile,
    HelperDirectory,
    SystemAuthentication,
    SystemAuthenticationTimeout,
    LoginRejected,
}

impl Error {
    pub open spec fn text(self) -> Seq<char> {
        match self {
            Error::PairingToken => "invalid pairing token"@,
            Error::Fingerprint => "invalid certificate fingerprint"@,
            Error::VideoSettings => "invalid video settings"@,
            Error::PointerCoordinates => "invalid pointer coordinates"@,
            Error::UnsupportedButton => "unsupported button"@,
            Error::UnsupportedKey => "unsupported key"@,
            Error::ScrollRange => "scroll out of range"@,
            Error::MonitorIndex => "invalid monitor index"@,
            Error::ClipboardText => "clipboard text exceeds limit or contains NUL"@,
            Error::VideoFeedback => "invalid video feedback"@,
            Error::VideoSize => "video size exceeds supported limits"@,
            Error::FrameLimit => "frame exceeds the size limit"@,
            Error::ReorderWindow => "control group outside reorder window"@,
            Error::DuplicateGroup => "duplicate control group"@,
            Error::IdentityOwner => "identity must be owned by the current user"@,
            Error::IdentityPrivate => "identity must be a regular private file (chmod 600)"@,
            Error::DirectoryOwner => "identity directory must be owned by the current user"@,
            Error::DirectoryPrivate => "identity directory must be private (chmod 700), not a symlink"@,
            Error::IncompleteIdentity => "incomplete host identity; inspect it instead of silently regenerating credentials"@,
            Error::OrphanPairing => "pairing file exists without its identity"@,
            Error::PersistentToken => "invalid persistent token"@,
            Error::TokenMismatch => "pairing token does not match persistent host identity"@,
            Error::PairingUnreadable => "pairing file cannot be read"@,
            Error::Certificate => "certificate generation failed"@,
            Error::FingerprintForm => "fingerprint must be exactly 64 hexadecimal characters copied from a trusted host"@,
            Error::ChallengeEncoding => "challenge encoding failed"@,
            Error::CredentialPolicy => "unsupported credential version, algorithm or verification policy"@,
            Error::CredentialHost => "credential belongs to a different host identity"@,
            Error::CredentialShape => "invalid credential ID or ES256 key length"@,
            Error::CredentialSubstituted => "authenticator returned a different credential"@,
            Error::AssertionShape => "invalid assertion dimensions"@,
            Error::AssertionCount => "expected exactly one assertion"@,
            Error::KeyNotListed => "requested key is not in the local device list"@,
            Error::NoKey => "no accessible FIDO device found; check connection and local device permissions"@,
            Error::SeveralKeys => "multiple keys found; select one with --device from `security-key list`"@,
            Error::DeviceCount => "invalid device count"@,
            Error::Fido2Required => "FIDO2 required; U2F fallback is disabled"@,
            Error::VerificationMissing => "key requires a configured PIN or built-in user verification; configure it with the vendor's trusted tool first"@,
            Error::PinForm => "invalid PIN length or encoding"@,
            Error::AttestationFlags => "credential must attest user presence and verification"@,
            Error::NativeData => "invalid native credential data"@,
            Error::CredentialFile => "credential must be a bounded regular file, not a symlink"@,
            Error::CredentialFileGrew => "credential file grew beyond its size limit"@,
            Error::Username => "username must be 1–64 ASCII letters, numbers, dots, underscores or hyphens (case-sensitive)"@,
            Error::PasswordLength => "use a password or passphrase of at least 12 characters (maximum 1024 bytes)"@,
            Error::PasswordNumeric => "use a passphrase, not a permanent numeric code"@,
            Error::PasswordRepeating => "use a strong, non-repeating passphrase"@,
            Error::DeviceName => "device name must be 1–128 bytes without control characters"@,
            Error::PacketSize => "invalid access message size"@,
            Error::TouchMessage => "invalid security-key message"@,
            Error::TouchAuthentication => "security-key message authentication failed"@,
            Error::TouchEncryption => "security-key message encryption failed"@,
            Error::CredentialResponse => "invalid credential response"@,
            Error::CredentialAuthentication => "credential authentication failed"@,
            Error::CredentialEncryption => "credential encryption failed"@,
            Error::LoginPassword => "invalid password length"@,
            Error::HostIdentity => "authenticated host identity mismatch"@,
            Error::FingerprintText => "the host sent no readable fingerprint"@,
            Error::AccessProtocol => "unsupported access protocol"@,
            Error::ContextEncoding => "login context encoding failed"@,
            Error::LoginFailed => "login failed"@,
            Error::LoginUnavailable => "login temporarily unavailable"@,
            Error::LoginOrder => "login message out of order"@,
            Error::UpdateClient => "host requires password plus U2F; update your client"@,
            Error::AccessDatabase => "unsupported or invalid access database"@,
            Error::StoredCredential => "invalid stored device credential"@,
            Error::StoredSetup => "unreadable stored password setup"@,
            Error::PasswordFirst => "configure a Teleport password first"@,
            Error::CredentialRefused => "security-key credential refused"@,
            Error::GenerationExhausted => "access generation exhausted"@,
            Error::SettingsChanged => "access settings changed; log in again"@,
            Error::KeySettingsChanged => "security-key settings changed"@,
            Error::CounterStalled => "security-key counter did not advance; enrollment rejected"@,
            Error::DeviceNotFound => "device not found"@,
            Error::DeviceLimit => "device limit reached; remove an old device on the host"@,
            Error::EnrollmentName => "invalid device name"@,
            Error::Unauthorized => "unauthorized session"@,
            Error::TicketSpent => "system login ticket already used or expired"@,
            Error::DisplayGone => "local display is no longer connected"@,
            Error::UseHostPort => "use host:port, not a URL"@,
            Error::IncompatibleVersion => "incompatible Teleport version"@,
            Error::DesktopSize => "invalid desktop size"@,
            Error::MonitorMetadata => "invalid monitor metadata"@,
            Error::ImageBounds => "decoded image exceeds bounds"@,
            Error::NoInitialVideo => "no initial decoded video for 15 seconds"@,
            Error::NoAudioOffered => "host did not offer audio"@,
            Error::FrameCount => "headless frame count must be positive"@,
            Error::EmptyFrame => "empty decoded frame"@,
            Error::ClipboardBothEnds => "clipboard must be enabled on both ends"@,
            Error::NoPortraitFrames => "monitor switch did not produce portrait frames"@,
            Error::NoAudioDecoded => "no network audio decoded"@,
            Error::ClipboardRoundtrip => "clipboard did not roundtrip"@,
            Error::HeadlessTimeout => "timed out decoding frames"@,
            Error::VideoBitrate => "invalid video bitrate"@,
            Error::DecoderBehind => "decoder is not keeping up"@,
            Error::MissingPlugins => "missing GStreamer plugins; run inside nix develop"@,
            Error::ImageStride => "invalid auxiliary image stride"@,
            Error::PlaneOverflow => "auxiliary image plane overflow"@,
            Error::PlaneTruncated => "truncated auxiliary image plane"@,
            Error::OddNv12 => "odd auxiliary NV12 dimensions"@,
            Error::ProbeIdentity => "decoder did not preserve per-frame identity metadata"@,
            Error::ProbeReference => "decoder altered or duplicated per-frame identity metadata"@,
            Error::ProbeRgb => "decoder did not produce RGB"@,
            Error::ProbeSize => "unexpected decoded frame format"@,
            Error::ProbeIncomplete => "decoded CPU buffer is incomplete"@,
            Error::ReducedPrecision => "decoder reduced precision"@,
            Error::LostTransfer => "decoder did not preserve PQ transfer"@,
            Error::LostPrimaries => "decoder did not preserve BT.2020 primaries"@,
            Error::NoFrameBuffer => "decoder returned no frame buffer"@,
            Error::EmptyFrameBuffer => "decoder returned an empty frame"@,
            Error::NotMain10 => "encoder did not produce HEVC Main 10"@,
            Error::StrideTooSmall => "invalid image stride"@,
            Error::TruncatedPlane => "truncated image plane"@,
            Error::OddP010 => "P010 dimensions must be even"@,
            Error::P010Alignment => "P010 strides must align to texture pixels"@,
            Error::OverlaySize => "invalid HDR UI overlay dimensions"@,
            Error::OverlayAlignment => "RGBA UI stride must align to pixels"@,
            Error::NeedsHdrPresenter => "P010 CPU presentation requires an HDR presenter"@,
            Error::NeedsSdrPresenter => "NV12 surface presentation requires an SDR presenter"@,
            Error::EmptyWindow => "empty window"@,
            Error::TooManyOverlays => "too many UI overlays"@,
            Error::InvalidHeadroom => "invalid display EDR headroom"@,
            Error::NoHeadroom => "display has no current EDR headroom; request an SDR stream or enable an HDR-capable display"@,
            Error::GpuFailed => "GPU command failed"@,
            Error::SurfaceFormat => "native SDR surfaces must be even-sized NV12"@,
            Error::SurfaceColor => "native SDR surface requires limited-range BT.709 metadata"@,
            Error::SurfaceChroma => "unsupported native NV12 chroma siting"@,
            Error::SurfaceBacking => "VideoToolbox pixel buffer has no IOSurface backing"@,
            Error::SurfaceRange => "Core Video surface is not limited-range NV12"@,
            Error::SurfacePlanes => "Core Video surface must have two planes"@,
            Error::SurfaceSize => "Core Video dimensions disagree with negotiated caps"@,
            Error::TextureCache => "creating Core Video Metal cache failed"@,
            Error::NoIndependentStreams => "host does not support independent monitor streams"@,
            Error::AuxiliaryMetadata => "invalid auxiliary stream metadata"@,
            Error::NoConfirmedVideo => "additional monitor produced no confirmed video"@,
            Error::UnknownSource => "unknown capture source"@,
            Error::X11OnWayland => "X11 capture cannot share a Wayland session; use --source portal"@,
            Error::PortalPermission => "keyboard and pointer permission are required"@,
            Error::NoPortalMonitor => "portal returned no monitor"@,
            Error::NoPortalSize => "portal did not report logical monitor size"@,
            Error::PortalSize => "invalid monitor size"@,
            Error::AudioSource => "audio source must be an explicit PulseAudio/PipeWire .monitor name (use pactl list short sources), or test"@,
            Error::AudioBehind => "audio decoder is not keeping up"@,
            Error::ClipboardTooLong => "clipboard exceeds 64 KiB"@,
            Error::ClipboardRead => "clipboard read failed"@,
            Error::ClipboardWrite => "clipboard write failed"@,
            Error::ClipboardEncoding => "clipboard text is not UTF-8"@,
            Error::PairingCode => "enter the six-digit pairing code from the host"@,
            Error::HostPortOnly => "enter host:port, not a URL"@,
            Error::AddressSyntax => "the address does not parse"@,
            Error::HostPortMissing => "include the host port, e.g. desktop.local:4443"@,
            Error::PairingTooLarge => "pairing message too large"@,
            Error::PairingLength => "invalid pairing message length"@,
            Error::PairingProtocol => "unsupported pairing protocol"@,
            Error::PairingExchange => "invalid pairing exchange"@,
            Error::PairingProof => "pairing authentication failed"@,
            Error::PairingExpired => "pairing code expired"@,
            Error::PairingReplaced => "pairing code closed or replaced"@,
            Error::PairingEncryption => "credential encryption failed"@,
            Error::PairingResponse => "invalid encrypted pairing response"@,
            Error::PairingAuthentication => "pairing authentication failed; check the code on the host"@,
            Error::ProfileAddress => "enter a host:port address, not a URL"@,
            Error::ProfilePort => "include the port, e.g. desktop.local:4443"@,
            Error::ProfileDirectory => "profile directory must be a real directory, not a symlink"@,
            Error::CredentialRegular => "credentials must be a regular file, not a symlink"@,
            Error::CredentialLarge => "credential/profile file is too large"@,
            Error::CredentialPublic => "credentials are accessible to other users; run chmod 600 on this file"@,
            Error::HomeMissing => "HOME is not set"@,
            Error::PairingFileExists => "pairing file already exists; choose a new --pairing-file (credentials rotate each host start)"@,
            Error::ScaledHeight => "scaled desktop exceeds maximum height"@,
            Error::InputGap => "input sequence gap; disconnecting to avoid stuck or reordered keys"@,
            Error::PasswordsDiffer => "passwords do not match"@,
            Error::AdminDirectory => "host identity directory must be private and owned by this user"@,
            Error::AdminSocket => "unsafe host admin socket"@,
            Error::AdminPeer => "admin server belongs to another user"@,
            Error::AdminRequestLarge => "admin request too large"@,
            Error::AdminResponseLarge => "admin response too large"@,
            Error::ExistingSocket => "unsafe existing admin socket"@,
            Error::SocketUnchecked => "cannot check existing admin socket"@,
            Error::SocketOwned => "another host owns this identity admin socket"@,
            Error::PairingClosed => "pairing closed"@,
            Error::PairingOver => "pairing expired"@,
            Error::NoFont => "No UI font found; run through Nix or set TELEPORT_FONT to a .ttf font"@,
            Error::AgentSocketMissing => "--forward-ssh-agent requires a local SSH_AUTH_SOCK; start/load your agent locally"@,
            Error::AgentSocketKind => "SSH_AUTH_SOCK is not a Unix socket"@,
            Error::AgentSequence => "SSH agent sequence overflow"@,
            Error::AgentEmptyGroup => "empty SSH agent group"@,
            Error::AgentEmptyPacket => "empty SSH agent packet"@,
            Error::AgentExtraFrame => "extra SSH agent frame"@,
            Error::AgentPacketSize => "SSH agent packet size invalid"@,
            Error::AgentOwner => "local SSH agent belongs to another user"@,
            Error::AgentResponse => "unexpected SSH agent response"@,
            Error::AgentPeer => "SSH agent socket peer mismatch"@,
            Error::SystemFrame => "invalid system login frame"@,
            Error::SystemCredentials => "invalid system login credentials"@,
            Error::SystemProtocol => "invalid system login protocol"@,
            Error::SystemLoginFailed => "system login failed"@,
            Error::SystemReplyText => "system login text is not UTF-8"@,
            Error::SystemCredential => "invalid system login credential"@,
            Error::SystemIdentity => "system login returned a different host identity"@,
            Error::SystemSessionCredential => "invalid system session credential"@,
            Error::AccountName => "invalid account name"@,
            Error::AccountPassword => "invalid account password"@,
            Error::PrivilegedHost => "system login requires an unprivileged user host"@,
            Error::AccountUnavailable => "account is unavailable"@,
            Error::AccountOwner => "account does not own this host"@,
            Error::AccountAlias => "account alias is not allowed"@,
            Error::HelperRelative => "PAM helper path must be absolute"@,
            Error::HelperFile => "PAM helper must be root-owned, executable, non-setuid and not writable by group/others"@,
            Error::HelperDirectory => "PAM helper directory must be root-owned and not writable by group/others"@,
            Error::SystemAuthentication => "system-account authentication failed"@,
            Error::SystemAuthenticationTimeout => "system-account authentication timed out"@,
            Error::LoginRejected => "login failed; check username/password or host access settings"@,
        }
    }

    /// What to tell the user.
    pub fn message(&self) -> (r: &'static str)
        ensures
            r@ == self.text(),
    {
        match self {
            Error::PairingToken => "invalid pairing token",
            Error::Fingerprint => "invalid certificate fingerprint",
            Error::VideoSettings => "invalid video settings",
            Error::PointerCoordinates => "invalid pointer coordinates",
            Error::UnsupportedButton => "unsupported button",
            Error::UnsupportedKey => "unsupported key",
            Error::ScrollRange => "scroll out of range",
            Error::MonitorIndex => "invalid monitor index",
            Error::ClipboardText => "clipboard text exceeds limit or contains NUL",
            Error::VideoFeedback => "invalid video feedback",
            Error::VideoSize => "video size exceeds supported limits",
            Error::FrameLimit => "frame exceeds the size limit",
            Error::ReorderWindow => "control group outside reorder window",
            Error::DuplicateGroup => "duplicate control group",
            Error::IdentityOwner => "identity must be owned by the current user",
            Error::IdentityPrivate => "identity must be a regular private file (chmod 600)",
            Error::DirectoryOwner => "identity directory must be owned by the current user",
            Error::DirectoryPrivate => "identity directory must be private (chmod 700), not a symlink",
            Error::IncompleteIdentity => "incomplete host identity; inspect it instead of silently regenerating credentials",
            Error::OrphanPairing => "pairing file exists without its identity",
            Error::PersistentToken => "invalid persistent token",
            Error::TokenMismatch => "pairing token does not match persistent host identity",
            Error::PairingUnreadable => "pairing file cannot be read",
            Error::Certificate => "certificate generation failed",
            Error::FingerprintForm => "fingerprint must be exactly 64 hexadecimal characters copied from a trusted host",
            Error::ChallengeEncoding => "challenge encoding failed",
            Error::CredentialPolicy => "unsupported credential version, algorithm or verification policy",
            Error::CredentialHost => "credential belongs to a different host identity",
            Error::CredentialShape => "invalid credential ID or ES256 key length",
            Error::CredentialSubstituted => "authenticator returned a different credential",
            Error::AssertionShape => "invalid assertion dimensions",
            Error::AssertionCount => "expected exactly one assertion",
            Error::KeyNotListed => "requested key is not in the local device list",
            Error::NoKey => "no accessible FIDO device found; check connection and local device permissions",
            Error::SeveralKeys => "multiple keys found; select one with --device from `security-key list`",
            Error::DeviceCount => "invalid device count",
            Error::Fido2Required => "FIDO2 required; U2F fallback is disabled",
            Error::VerificationMissing => "key requires a configured PIN or built-in user verification; configure it with the vendor's trusted tool first",
            Error::PinForm => "invalid PIN length or encoding",
            Error::AttestationFlags => "credential must attest user presence and verification",
            Error::NativeData => "invalid native credential data",
            Error::CredentialFile => "credential must be a bounded regular file, not a symlink",
            Error::CredentialFileGrew => "credential file grew beyond its size limit",
            Error::Username => "username must be 1–64 ASCII letters, numbers, dots, underscores or hyphens (case-sensitive)",
            Error::PasswordLength => "use a password or passphrase of at least 12 characters (maximum 1024 bytes)",
            Error::PasswordNumeric => "use a passphrase, not a permanent numeric code",
            Error::PasswordRepeating => "use a strong, non-repeating passphrase",
            Error::DeviceName => "device name must be 1–128 bytes without control characters",
            Error::PacketSize => "invalid access message size",
            Error::TouchMessage => "invalid security-key message",
            Error::TouchAuthentication => "security-key message authentication failed",
            Error::TouchEncryption => "security-key message encryption failed",
            Error::CredentialResponse => "invalid credential response",
            Error::CredentialAuthentication => "credential authentication failed",
            Error::CredentialEncryption => "credential encryption failed",
            Error::LoginPassword => "invalid password length",
            Error::HostIdentity => "authenticated host identity mismatch",
            Error::FingerprintText => "the host sent no readable fingerprint",
            Error::AccessProtocol => "unsupported access protocol",
            Error::ContextEncoding => "login context encoding failed",
            Error::LoginFailed => "login failed",
            Error::LoginUnavailable => "login temporarily unavailable",
            Error::LoginOrder => "login message out of order",
            Error::UpdateClient => "host requires password plus U2F; update your client",
            Error::AccessDatabase => "unsupported or invalid access database",
            Error::StoredCredential => "invalid stored device credential",
            Error::StoredSetup => "unreadable stored password setup",
            Error::PasswordFirst => "configure a Teleport password first",
            Error::CredentialRefused => "security-key credential refused",
            Error::GenerationExhausted => "access generation exhausted",
            Error::SettingsChanged => "access settings changed; log in again",
            Error::KeySettingsChanged => "security-key settings changed",
            Error::CounterStalled => "security-key counter did not advance; enrollment rejected",
            Error::DeviceNotFound => "device not found",
            Error::DeviceLimit => "device limit reached; remove an old device on the host",
            Error::EnrollmentName => "invalid device name",
            Error::Unauthorized => "unauthorized session",
            Error::TicketSpent => "system login ticket already used or expired",
            Error::DisplayGone => "local display is no longer connected",
            Error::UseHostPort => "use host:port, not a URL",
            Error::IncompatibleVersion => "incompatible Teleport version",
            Error::DesktopSize => "invalid desktop size",
            Error::MonitorMetadata => "invalid monitor metadata",
            Error::ImageBounds => "decoded image exceeds bounds",
            Error::NoInitialVideo => "no initial decoded video for 15 seconds",
            Error::NoAudioOffered => "host did not offer audio",
            Error::FrameCount => "headless frame count must be positive",
            Error::EmptyFrame => "empty decoded frame",
            Error::ClipboardBothEnds => "clipboard must be enabled on both ends",
            Error::NoPortraitFrames => "monitor switch did not produce portrait frames",
            Error::NoAudioDecoded => "no network audio decoded",
            Error::ClipboardRoundtrip => "clipboard did not roundtrip",
            Error::HeadlessTimeout => "timed out decoding frames",
            Error::VideoBitrate => "invalid video bitrate",
            Error::DecoderBehind => "decoder is not keeping up",
            Error::MissingPlugins => "missing GStreamer plugins; run inside nix develop",
            Error::ImageStride => "invalid auxiliary image stride",
            Error::PlaneOverflow => "auxiliary image plane overflow",
            Error::PlaneTruncated => "truncated auxiliary image plane",
            Error::OddNv12 => "odd auxiliary NV12 dimensions",
            Error::ProbeIdentity => "decoder did not preserve per-frame identity metadata",
            Error::ProbeReference => "decoder altered or duplicated per-frame identity metadata",
            Error::ProbeRgb => "decoder did not produce RGB",
            Error::ProbeSize => "unexpected decoded frame format",
            Error::ProbeIncomplete => "decoded CPU buffer is incomplete",
            Error::ReducedPrecision => "decoder reduced precision",
            Error::LostTransfer => "decoder did not preserve PQ transfer",
            Error::LostPrimaries => "decoder did not preserve BT.2020 primaries",
            Error::NoFrameBuffer => "decoder returned no frame buffer",
            Error::EmptyFrameBuffer => "decoder returned an empty frame",
            Error::NotMain10 => "encoder did not produce HEVC Main 10",
            Error::StrideTooSmall => "invalid image stride",
            Error::TruncatedPlane => "truncated image plane",
            Error::OddP010 => "P010 dimensions must be even",
            Error::P010Alignment => "P010 strides must align to texture pixels",
            Error::OverlaySize => "invalid HDR UI overlay dimensions",
            Error::OverlayAlignment => "RGBA UI stride must align to pixels",
            Error::NeedsHdrPresenter => "P010 CPU presentation requires an HDR presenter",
            Error::NeedsSdrPresenter => "NV12 surface presentation requires an SDR presenter",
            Error::EmptyWindow => "empty window",
            Error::TooManyOverlays => "too many UI overlays",
            Error::InvalidHeadroom => "invalid display EDR headroom",
            Error::NoHeadroom => "display has no current EDR headroom; request an SDR stream or enable an HDR-capable display",
            Error::GpuFailed => "GPU command failed",
            Error::SurfaceFormat => "native SDR surfaces must be even-sized NV12",
            Error::SurfaceColor => "native SDR surface requires limited-range BT.709 metadata",
            Error::SurfaceChroma => "unsupported native NV12 chroma siting",
            Error::SurfaceBacking => "VideoToolbox pixel buffer has no IOSurface backing",
            Error::SurfaceRange => "Core Video surface is not limited-range NV12",
            Error::SurfacePlanes => "Core Video surface must have two planes",
            Error::SurfaceSize => "Core Video dimensions disagree with negotiated caps",
            Error::TextureCache => "creating Core Video Metal cache failed",
            Error::NoIndependentStreams => "host does not support independent monitor streams",
            Error::AuxiliaryMetadata => "invalid auxiliary stream metadata",
            Error::NoConfirmedVideo => "additional monitor produced no confirmed video",
            Error::UnknownSource => "unknown capture source",
            Error::X11OnWayland => "X11 capture cannot share a Wayland session; use --source portal",
            Error::PortalPermission => "keyboard and pointer permission are required",
            Error::NoPortalMonitor => "portal returned no monitor",
            Error::NoPortalSize => "portal did not report logical monitor size",
            Error::PortalSize => "invalid monitor size",
            Error::AudioSource => "audio source must be an explicit PulseAudio/PipeWire .monitor name (use pactl list short sources), or test",
            Error::AudioBehind => "audio decoder is not keeping up",
            Error::ClipboardTooLong => "clipboard exceeds 64 KiB",
            Error::ClipboardRead => "clipboard read failed",
            Error::ClipboardWrite => "clipboard write failed",
            Error::ClipboardEncoding => "clipboard text is not UTF-8",
            Error::PairingCode => "enter the six-digit pairing code from the host",
            Error::HostPortOnly => "enter host:port, not a URL",
            Error::AddressSyntax => "the address does not parse",
            Error::HostPortMissing => "include the host port, e.g. desktop.local:4443",
            Error::PairingTooLarge => "pairing message too large",
            Error::PairingLength => "invalid pairing message length",
            Error::PairingProtocol => "unsupported pairing protocol",
            Error::PairingExchange => "invalid pairing exchange",
            Error::PairingProof => "pairing authentication failed",
            Error::PairingExpired => "pairing code expired",
            Error::PairingReplaced => "pairing code closed or replaced",
            Error::PairingEncryption => "credential encryption failed",
            Error::PairingResponse => "invalid encrypted pairing response",
            Error::PairingAuthentication => "pairing authentication failed; check the code on the host",
            Error::ProfileAddress => "enter a host:port address, not a URL",
            Error::ProfilePort => "include the port, e.g. desktop.local:4443",
            Error::ProfileDirectory => "profile directory must be a real directory, not a symlink",
            Error::CredentialRegular => "credentials must be a regular file, not a symlink",
            Error::CredentialLarge => "credential/profile file is too large",
            Error::CredentialPublic => "credentials are accessible to other users; run chmod 600 on this file",
            Error::HomeMissing => "HOME is not set",
            Error::PairingFileExists => "pairing file already exists; choose a new --pairing-file (credentials rotate each host start)",
            Error::ScaledHeight => "scaled desktop exceeds maximum height",
            Error::InputGap => "input sequence gap; disconnecting to avoid stuck or reordered keys",
            Error::PasswordsDiffer => "passwords do not match",
            Error::AdminDirectory => "host identity directory must be private and owned by this user",
            Error::AdminSocket => "unsafe host admin socket",
            Error::AdminPeer => "admin server belongs to another user",
            Error::AdminRequestLarge => "admin request too large",
            Error::AdminResponseLarge => "admin response too large",
            Error::ExistingSocket => "unsafe existing admin socket",
            Error::SocketUnchecked => "cannot check existing admin socket",
            Error::SocketOwned => "another host owns this identity admin socket",
            Error::PairingClosed => "pairing closed",
            Error::PairingOver => "pairing expired",
            Error::NoFont => "No UI font found; run through Nix or set TELEPORT_FONT to a .ttf font",
            Error::AgentSocketMissing => "--forward-ssh-agent requires a local SSH_AUTH_SOCK; start/load your agent locally",
            Error::AgentSocketKind => "SSH_AUTH_SOCK is not a Unix socket",
            Error::AgentSequence => "SSH agent sequence overflow",
            Error::AgentEmptyGroup => "empty SSH agent group",
            Error::AgentEmptyPacket => "empty SSH agent packet",
            Error::AgentExtraFrame => "extra SSH agent frame",
            Error::AgentPacketSize => "SSH agent packet size invalid",
            Error::AgentOwner => "local SSH agent belongs to another user",
            Error::AgentResponse => "unexpected SSH agent response",
            Error::AgentPeer => "SSH agent socket peer mismatch",
            Error::SystemFrame => "invalid system login frame",
            Error::SystemCredentials => "invalid system login credentials",
            Error::SystemProtocol => "invalid system login protocol",
            Error::SystemLoginFailed => "system login failed",
            Error::SystemReplyText => "system login text is not UTF-8",
            Error::SystemCredential => "invalid system login credential",
            Error::SystemIdentity => "system login returned a different host identity",
            Error::SystemSessionCredential => "invalid system session credential",
            Error::AccountName => "invalid account name",
            Error::AccountPassword => "invalid account password",
            Error::PrivilegedHost => "system login requires an unprivileged user host",
            Error::AccountUnavailable => "account is unavailable",
            Error::AccountOwner => "account does not own this host",
            Error::AccountAlias => "account alias is not allowed",
            Error::HelperRelative => "PAM helper path must be absolute",
            Error::HelperFile => "PAM helper must be root-owned, executable, non-setuid and not writable by group/others",
            Error::HelperDirectory => "PAM helper directory must be root-owned and not writable by group/others",
            Error::SystemAuthentication => "system-account authentication failed",
            Error::SystemAuthenticationTimeout => "system-account authentication timed out",
            Error::LoginRejected => "login failed; check username/password or host access settings",
        }
    }
}

} // verus!
