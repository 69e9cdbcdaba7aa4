//! What the person at the screen is told: each refusal names what is wrong and, where
//! something can be done, what to do.
use crate::error::Error;
use vstd::prelude::*;

verus! {

/// The refusal is worded so.
pub open spec fn tells(e: Error, message: Seq<char>) -> bool {
    e.text() == message
}

/// What is wrong with a message of the other side.
pub proof fn messages_that_are_refused()
    ensures
        tells(Error::PairingToken, "invalid pairing token"@),
        tells(Error::Fingerprint, "invalid certificate fingerprint"@),
        tells(Error::VideoSettings, "invalid video settings"@),
        tells(Error::PointerCoordinates, "invalid pointer coordinates"@),
        tells(Error::UnsupportedButton, "unsupported button"@),
        tells(Error::UnsupportedKey, "unsupported key"@),
        tells(Error::ScrollRange, "scroll out of range"@),
        tells(Error::MonitorIndex, "invalid monitor index"@),
        tells(Error::ClipboardText, "clipboard text exceeds limit or contains NUL"@),
        tells(Error::VideoFeedback, "invalid video feedback"@),
        tells(Error::VideoSize, "video size exceeds supported limits"@),
        tells(Error::FrameLimit, "frame exceeds the size limit"@),
        tells(Error::ReorderWindow, "control group outside reorder window"@),
        tells(Error::DuplicateGroup, "duplicate control group"@),
{
}

/// What is wrong with an identity or its files.
pub proof fn identities_that_are_refused()
    ensures
        tells(Error::IdentityOwner, "identity must be owned by the current user"@),
        tells(Error::IdentityPrivate, "identity must be a regular private file (chmod 600)"@),
        tells(Error::DirectoryOwner, "identity directory must be owned by the current user"@),
        tells(
            Error::DirectoryPrivate,
            "identity directory must be private (chmod 700), not a symlink"@,
        ),
        tells(
            Error::IncompleteIdentity,
            "incomplete host identity; inspect it instead of silently regenerating credentials"@,
        ),
        tells(Error::OrphanPairing, "pairing file exists without its identity"@),
        tells(Error::PersistentToken, "invalid persistent token"@),
        tells(Error::TokenMismatch, "pairing token does not match persistent host identity"@),
        tells(Error::PairingUnreadable, "pairing file cannot be read"@),
        tells(Error::Certificate, "certificate generation failed"@),
{
}

/// What is wrong with a security key or what it returned.
pub proof fn keys_that_are_refused()
    ensures
        tells(
            Error::FingerprintForm,
            "fingerprint must be exactly 64 hexadecimal characters copied from a trusted host"@,
        ),
        tells(Error::ChallengeEncoding, "challenge encoding failed"@),
        tells(
            Error::CredentialPolicy,
            "unsupported credential version, algorithm or verification policy"@,
        ),
        tells(Error::CredentialHost, "credential belongs to a different host identity"@),
        tells(Error::CredentialShape, "invalid credential ID or ES256 key length"@),
        tells(Error::CredentialSubstituted, "authenticator returned a different credential"@),
        tells(Error::AssertionShape, "invalid assertion dimensions"@),
        tells(Error::AssertionCount, "expected exactly one assertion"@),
        tells(Error::KeyNotListed, "requested key is not in the local device list"@),
        tells(
            Error::NoKey,
            "no accessible FIDO device found; check connection and local device permissions"@,
        ),
        tells(
            Error::SeveralKeys,
            "multiple keys found; select one with --device from `security-key list`"@,
        ),
        tells(Error::DeviceCount, "invalid device count"@),
        tells(Error::Fido2Required, "FIDO2 required; U2F fallback is disabled"@),
        tells(
            Error::VerificationMissing,
            "key requires a configured PIN or built-in user verification; configure it with the vendor's trusted tool first"@,
        ),
        tells(Error::PinForm, "invalid PIN length or encoding"@),
        tells(Error::AttestationFlags, "credential must attest user presence and verification"@),
        tells(Error::NativeData, "invalid native credential data"@),
        tells(Error::CredentialFile, "credential must be a bounded regular file, not a symlink"@),
        tells(Error::CredentialFileGrew, "credential file grew beyond its size limit"@),
{
}

/// What is wrong with a login.
pub proof fn logins_that_are_refused()
    ensures
        tells(
            Error::Username,
            "username must be 1–64 ASCII letters, numbers, dots, underscores or hyphens (case-sensitive)"@,
        ),
        tells(
            Error::PasswordLength,
            "use a password or passphrase of at least 12 characters (maximum 1024 bytes)"@,
        ),
        tells(Error::PasswordNumeric, "use a passphrase, not a permanent numeric code"@),
        tells(Error::PasswordRepeating, "use a strong, non-repeating passphrase"@),
        tells(Error::DeviceName, "device name must be 1–128 bytes without control characters"@),
        tells(Error::PacketSize, "invalid access message size"@),
        tells(Error::TouchMessage, "invalid security-key message"@),
        tells(Error::TouchAuthentication, "security-key message authentication failed"@),
        tells(Error::TouchEncryption, "security-key message encryption failed"@),
        tells(Error::CredentialResponse, "invalid credential response"@),
        tells(Error::CredentialAuthentication, "credential authentication failed"@),
        tells(Error::CredentialEncryption, "credential encryption failed"@),
        tells(Error::LoginPassword, "invalid password length"@),
        tells(Error::HostIdentity, "authenticated host identity mismatch"@),
        tells(Error::FingerprintText, "the host sent no readable fingerprint"@),
        tells(Error::AccessProtocol, "unsupported access protocol"@),
        tells(Error::ContextEncoding, "login context encoding failed"@),
        tells(Error::LoginFailed, "login failed"@),
        tells(Error::LoginUnavailable, "login temporarily unavailable"@),
        tells(Error::LoginOrder, "login message out of order"@),
        tells(Error::UpdateClient, "host requires password plus U2F; update your client"@),
        tells(Error::AccessDatabase, "unsupported or invalid access database"@),
        tells(Error::StoredCredential, "invalid stored device credential"@),
        tells(Error::StoredSetup, "unreadable stored password setup"@),
        tells(Error::PasswordFirst, "configure a Teleport password first"@),
        tells(Error::CredentialRefused, "security-key credential refused"@),
        tells(Error::GenerationExhausted, "access generation exhausted"@),
        tells(Error::SettingsChanged, "access settings changed; log in again"@),
        tells(Error::KeySettingsChanged, "security-key settings changed"@),
        tells(Error::CounterStalled, "security-key counter did not advance; enrollment rejected"@),
        tells(Error::DeviceNotFound, "device not found"@),
        tells(Error::DeviceLimit, "device limit reached; remove an old device on the host"@),
        tells(Error::EnrollmentName, "invalid device name"@),
        tells(Error::Unauthorized, "unauthorized session"@),
        tells(Error::TicketSpent, "system login ticket already used or expired"@),
{
}

/// What ends a session, or the check of one.
pub proof fn sessions_that_end()
    ensures
        tells(Error::DisplayGone, "local display is no longer connected"@),
        tells(Error::UseHostPort, "use host:port, not a URL"@),
        tells(Error::IncompatibleVersion, "incompatible Teleport version"@),
        tells(Error::DesktopSize, "invalid desktop size"@),
        tells(Error::MonitorMetadata, "invalid monitor metadata"@),
        tells(Error::ImageBounds, "decoded image exceeds bounds"@),
        tells(Error::NoInitialVideo, "no initial decoded video for 15 seconds"@),
        tells(Error::NoAudioOffered, "host did not offer audio"@),
        tells(Error::FrameCount, "headless frame count must be positive"@),
        tells(Error::EmptyFrame, "empty decoded frame"@),
        tells(Error::ClipboardBothEnds, "clipboard must be enabled on both ends"@),
        tells(Error::NoPortraitFrames, "monitor switch did not produce portrait frames"@),
        tells(Error::NoAudioDecoded, "no network audio decoded"@),
        tells(Error::ClipboardRoundtrip, "clipboard did not roundtrip"@),
        tells(Error::HeadlessTimeout, "timed out decoding frames"@),
{
}

/// What is wrong with an encoder, a decoder or a picture.
pub proof fn pictures_that_are_refused()
    ensures
        tells(Error::VideoBitrate, "invalid video bitrate"@),
        tells(Error::DecoderBehind, "decoder is not keeping up"@),
        tells(Error::MissingPlugins, "missing GStreamer plugins; run inside nix develop"@),
        tells(Error::ImageStride, "invalid auxiliary image stride"@),
        tells(Error::PlaneOverflow, "auxiliary image plane overflow"@),
        tells(Error::PlaneTruncated, "truncated auxiliary image plane"@),
        tells(Error::OddNv12, "odd auxiliary NV12 dimensions"@),
        tells(Error::ProbeIdentity, "decoder did not preserve per-frame identity metadata"@),
        tells(Error::ProbeReference, "decoder altered or duplicated per-frame identity metadata"@),
        tells(Error::ProbeRgb, "decoder did not produce RGB"@),
        tells(Error::ProbeSize, "unexpected decoded frame format"@),
        tells(Error::ProbeIncomplete, "decoded CPU buffer is incomplete"@),
        tells(Error::ReducedPrecision, "decoder reduced precision"@),
        tells(Error::LostTransfer, "decoder did not preserve PQ transfer"@),
        tells(Error::LostPrimaries, "decoder did not preserve BT.2020 primaries"@),
        tells(Error::NoFrameBuffer, "decoder returned no frame buffer"@),
        tells(Error::EmptyFrameBuffer, "decoder returned an empty frame"@),
        tells(Error::NotMain10, "encoder did not produce HEVC Main 10"@),
        tells(Error::StrideTooSmall, "invalid image stride"@),
        tells(Error::TruncatedPlane, "truncated image plane"@),
        tells(Error::OddP010, "P010 dimensions must be even"@),
        tells(Error::P010Alignment, "P010 strides must align to texture pixels"@),
        tells(Error::OverlaySize, "invalid HDR UI overlay dimensions"@),
        tells(Error::OverlayAlignment, "RGBA UI stride must align to pixels"@),
        tells(Error::NeedsHdrPresenter, "P010 CPU presentation requires an HDR presenter"@),
        tells(Error::NeedsSdrPresenter, "NV12 surface presentation requires an SDR presenter"@),
        tells(Error::EmptyWindow, "empty window"@),
        tells(Error::TooManyOverlays, "too many UI overlays"@),
        tells(Error::InvalidHeadroom, "invalid display EDR headroom"@),
        tells(
            Error::NoHeadroom,
            "display has no current EDR headroom; request an SDR stream or enable an HDR-capable display"@,
        ),
        tells(Error::GpuFailed, "GPU command failed"@),
        tells(Error::SurfaceFormat, "native SDR surfaces must be even-sized NV12"@),
        tells(Error::SurfaceColor, "native SDR surface requires limited-range BT.709 metadata"@),
        tells(Error::SurfaceChroma, "unsupported native NV12 chroma siting"@),
        tells(Error::SurfaceBacking, "VideoToolbox pixel buffer has no IOSurface backing"@),
        tells(Error::SurfaceRange, "Core Video surface is not limited-range NV12"@),
        tells(Error::SurfacePlanes, "Core Video surface must have two planes"@),
        tells(Error::SurfaceSize, "Core Video dimensions disagree with negotiated caps"@),
        tells(Error::TextureCache, "creating Core Video Metal cache failed"@),
        tells(Error::NoIndependentStreams, "host does not support independent monitor streams"@),
        tells(Error::AuxiliaryMetadata, "invalid auxiliary stream metadata"@),
        tells(Error::NoConfirmedVideo, "additional monitor produced no confirmed video"@),
{
}

/// What is wrong with a source of pictures or sound, or with the clipboard.
pub proof fn sources_that_are_refused()
    ensures
        tells(Error::UnknownSource, "unknown capture source"@),
        tells(
            Error::X11OnWayland,
            "X11 capture cannot share a Wayland session; use --source portal"@,
        ),
        tells(Error::PortalPermission, "keyboard and pointer permission are required"@),
        tells(Error::NoPortalMonitor, "portal returned no monitor"@),
        tells(Error::NoPortalSize, "portal did not report logical monitor size"@),
        tells(Error::PortalSize, "invalid monitor size"@),
        tells(
            Error::AudioSource,
            "audio source must be an explicit PulseAudio/PipeWire .monitor name (use pactl list short sources), or test"@,
        ),
        tells(Error::AudioBehind, "audio decoder is not keeping up"@),
        tells(Error::ClipboardTooLong, "clipboard exceeds 64 KiB"@),
        tells(Error::ClipboardRead, "clipboard read failed"@),
        tells(Error::ClipboardWrite, "clipboard write failed"@),
        tells(Error::ClipboardEncoding, "clipboard text is not UTF-8"@),
{
}

/// What is wrong with a pairing or an address.
pub proof fn pairings_that_are_refused()
    ensures
        tells(Error::PairingCode, "enter the six-digit pairing code from the host"@),
        tells(Error::HostPortOnly, "enter host:port, not a URL"@),
        tells(Error::AddressSyntax, "the address does not parse"@),
        tells(Error::HostPortMissing, "include the host port, e.g. desktop.local:4443"@),
        tells(Error::PairingTooLarge, "pairing message too large"@),
        tells(Error::PairingLength, "invalid pairing message length"@),
        tells(Error::PairingProtocol, "unsupported pairing protocol"@),
        tells(Error::PairingExchange, "invalid pairing exchange"@),
        tells(Error::PairingProof, "pairing authentication failed"@),
        tells(Error::PairingExpired, "pairing code expired"@),
        tells(Error::PairingReplaced, "pairing code closed or replaced"@),
        tells(Error::PairingEncryption, "credential encryption failed"@),
        tells(Error::PairingResponse, "invalid encrypted pairing response"@),
        tells(
            Error::PairingAuthentication,
            "pairing authentication failed; check the code on the host"@,
        ),
        tells(Error::ProfileAddress, "enter a host:port address, not a URL"@),
        tells(Error::ProfilePort, "include the port, e.g. desktop.local:4443"@),
        tells(
            Error::ProfileDirectory,
            "profile directory must be a real directory, not a symlink"@,
        ),
        tells(Error::CredentialRegular, "credentials must be a regular file, not a symlink"@),
        tells(Error::CredentialLarge, "credential/profile file is too large"@),
        tells(
            Error::CredentialPublic,
            "credentials are accessible to other users; run chmod 600 on this file"@,
        ),
        tells(Error::HomeMissing, "HOME is not set"@),
{
}

/// What a host refuses to its own user.
pub proof fn what_a_host_refuses_its_user()
    ensures
        tells(
            Error::PairingFileExists,
            "pairing file already exists; choose a new --pairing-file (credentials rotate each host start)"@,
        ),
        tells(Error::ScaledHeight, "scaled desktop exceeds maximum height"@),
        tells(
            Error::InputGap,
            "input sequence gap; disconnecting to avoid stuck or reordered keys"@,
        ),
        tells(Error::PasswordsDiffer, "passwords do not match"@),
        tells(
            Error::AdminDirectory,
            "host identity directory must be private and owned by this user"@,
        ),
        tells(Error::AdminSocket, "unsafe host admin socket"@),
        tells(Error::AdminPeer, "admin server belongs to another user"@),
        tells(Error::AdminRequestLarge, "admin request too large"@),
        tells(Error::AdminResponseLarge, "admin response too large"@),
        tells(Error::ExistingSocket, "unsafe existing admin socket"@),
        tells(Error::SocketUnchecked, "cannot check existing admin socket"@),
        tells(Error::SocketOwned, "another host owns this identity admin socket"@),
        tells(Error::PairingClosed, "pairing closed"@),
        tells(Error::PairingOver, "pairing expired"@),
        tells(
            Error::NoFont,
            "No UI font found; run through Nix or set TELEPORT_FONT to a .ttf font"@,
        ),
{
}

/// What is wrong with an SSH agent.
pub proof fn agents_that_are_refused()
    ensures
        tells(
            Error::AgentSocketMissing,
            "--forward-ssh-agent requires a local SSH_AUTH_SOCK; start/load your agent locally"@,
        ),
        tells(Error::AgentSocketKind, "SSH_AUTH_SOCK is not a Unix socket"@),
        tells(Error::AgentSequence, "SSH agent sequence overflow"@),
        tells(Error::AgentEmptyGroup, "empty SSH agent group"@),
        tells(Error::AgentEmptyPacket, "empty SSH agent packet"@),
        tells(Error::AgentExtraFrame, "extra SSH agent frame"@),
        tells(Error::AgentPacketSize, "SSH agent packet size invalid"@),
        tells(Error::AgentOwner, "local SSH agent belongs to another user"@),
        tells(Error::AgentResponse, "unexpected SSH agent response"@),
        tells(Error::AgentPeer, "SSH agent socket peer mismatch"@),
{
}

/// What is wrong with a login to an account of the system.
pub proof fn accounts_that_are_refused()
    ensures
        tells(Error::SystemFrame, "invalid system login frame"@),
        tells(Error::SystemCredentials, "invalid system login credentials"@),
        tells(Error::SystemProtocol, "invalid system login protocol"@),
        tells(Error::SystemLoginFailed, "system login failed"@),
        tells(Error::SystemReplyText, "system login text is not UTF-8"@),
        tells(Error::SystemCredential, "invalid system login credential"@),
        tells(Error::SystemIdentity, "system login returned a different host identity"@),
        tells(Error::SystemSessionCredential, "invalid system session credential"@),
        tells(Error::AccountName, "invalid account name"@),
        tells(Error::AccountPassword, "invalid account password"@),
        tells(Error::PrivilegedHost, "system login requires an unprivileged user host"@),
        tells(Error::AccountUnavailable, "account is unavailable"@),
        tells(Error::AccountOwner, "account does not own this host"@),
        tells(Error::AccountAlias, "account alias is not allowed"@),
        tells(Error::HelperRelative, "PAM helper path must be absolute"@),
        tells(
            Error::HelperFile,
            "PAM helper must be root-owned, executable, non-setuid and not writable by group/others"@,
        ),
        tells(
            Error::HelperDirectory,
            "PAM helper directory must be root-owned and not writable by group/others"@,
        ),
        tells(Error::SystemAuthentication, "system-account authentication failed"@),
        tells(Error::SystemAuthenticationTimeout, "system-account authentication timed out"@),
        tells(
            Error::LoginRejected,
            "login failed; check username/password or host access settings"@,
        ),
{
}

} // verus!
