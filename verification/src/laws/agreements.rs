//! What both sides of a connection must have in common, and the bounds within which
//! everything stays.
use crate::access;
use crate::audio;
use crate::client;
use crate::clipboard;
use crate::decoder;
use crate::hdr;
use crate::host;
use crate::host_admin;
use crate::host_ui;
use crate::identity;
use crate::launcher;
use crate::media;
use crate::multi_display;
use crate::pairing;
use crate::profiles;
use crate::protocol;
use crate::security_key;
use crate::ssh_agent;
use crate::system_login;
use crate::system_pam;
use vstd::prelude::*;

verus! {

/// The words by which the services know each other, and the labels of what they derive.
pub proof fn words_on_the_wire()
    ensures
        access::MAGIC@ == "TPAUTH01"@,
        host_admin::LOGIN_MAGIC@ == "TPAUTH01"@,
        access::TOUCH_MAGIC@ == "TPU2F001"@,
        access::TOUCH_REQUEST@ == "teleport/u2f/challenge/v1"@,
        access::TOUCH_REPLY@ == "teleport/u2f/assertion/v1"@,
        access::DEVICE_CREDENTIAL@ == "teleport/password/device-credential/v1"@,
        access::login::TOUCH_BINDING@ == "teleport/u2f/login/v1"@,
        access::server::FROM_PASSWORD@ == "password"@,
        access::server::FROM_PAIRING@ == "pairing"@,
        pairing::MAGIC@ == "TPPAIR01"@,
        pairing::CLIENT@ == "teleport/pair/v1/client"@,
        pairing::HOST@ == "teleport/pair/v1/host"@,
        pairing::CONFIRM@ == "teleport/client-confirm/v1"@,
        pairing::CREDENTIAL@ == "teleport/host-credential/v1"@,
        pairing::CLIENT_SIDE == 0x41,
        pairing::HOST_SIDE == 0x42,
        pairing::MESSAGE == 33,
        system_login::MAGIC@ == "TPSYS001"@,
        system_login::ALPN@ == "teleport-system-login/1"@,
        system_login::REPLY == 129,
        system_pam::MAGIC@ == "TPAM0001"@,
        system_pam::AGREED@ == "OK\n"@,
        ssh_agent::REQUEST_TRACK@ == "ssh-agent-requests-v1"@,
        ssh_agent::RESPONSE_TRACK@ == "ssh-agent-responses-v1"@,
        protocol::VERSION == 2,
        protocol::WIRE_VERSION@ == "moq-lite-05"@,
        security_key::CHALLENGE_DOMAIN@ == "teleport/native-fido2/offline/v1"@,
        security_key::ES256 == -7,
        host_admin::LOGIN_MAGIC@ == access::MAGIC@,
{
}

/// The files of an identity, and what stands in them.
pub proof fn names_of_files()
    ensures
        identity::CERTIFICATE_FILE@ == "certificate.pem"@,
        identity::KEY_FILE@ == "key.pem"@,
        identity::TOKEN_FILE@ == "token"@,
        identity::PAIRING_FILE@ == "pairing.json"@,
        identity::CERTIFICATE_NAME@ == "teleport.local"@,
        identity::PRIVATE_KEY@ == "PRIVATE KEY"@,
        identity::CERTIFICATE@ == "CERTIFICATE"@,
        profiles::LIST@ == "profiles.json"@,
{
}

/// How much is taken of anything. A control message holds a text of which every byte is
/// escaped.
pub proof fn how_much_is_taken()
    ensures
        protocol::MAX_FRAME == 8_388_608,
        protocol::MAX_TEXT == 65_536,
        protocol::MAX_CONTROL == 394_240,
        protocol::REORDER_WINDOW == 16,
        host::MAX_INPUT == 1024,
        host::MAX_HEIGHT == 4320,
        host_admin::MAX_REQUEST == 8192,
        host_admin::MAX_RESPONSE == 65536,
        access::MAX_PACKET == 4096,
        access::server::MAX_SOURCES == 256,
        access::server::MAX_DATABASE == 262_144,
        access::server::LOGIN_SLOTS == 4,
        access::KSF_MEMORY_KIB == 65_536,
        access::KSF_PASSES == 3,
        access::KSF_LANES == 1,
        pairing::MAX_PACKET == 4096,
        pairing::MAX_MESSAGE == 128,
        pairing::MAX_PROOF == 32,
        system_login::MAX_FRAME == 4096,
        security_key::MAX_DEVICES == 32,
        security_key::MAX_CREDENTIAL_FILE == 32_768,
        profiles::MAX_FILE == 65536,
        audio::MAX_QUEUED == 65536,
        audio::MAX_PACKET == 4096,
        media::MAX_QUEUED == 16_777_216,
        multi_display::MAX_SCREENS == 4,
        client::GROUP_LENGTH == 256,
        protocol::MAX_CONTROL == 6 * protocol::MAX_TEXT + 1024,
{
}

/// How long anything may take.
pub proof fn how_long_things_take()
    ensures
        protocol::INPUT_TIMEOUT == 3,
        access::LOGIN_TIMEOUT == 90,
        access::PROOF_TIMEOUT == 15,
        pairing::TIMEOUT == 10_000_000_000,
        pairing::LIFETIME == 300_000_000_000,
        system_login::HANDSHAKE_TIMEOUT == 5_000_000_000,
        system_login::LOGIN_TIMEOUT == 45_000_000_000,
        system_pam::WORKER_TIMEOUT == 20_000_000_000,
        ssh_agent::TIMEOUT == 60_000_000_000,
        ssh_agent::PAUSE == 100_000_000,
        clipboard::HELPER_LIMIT == 2_000_000_000,
        client::FIRST_PICTURE == 15_000_000_000,
        client::HEADLESS_LIMIT == 20_000_000_000,
        client::RETRY_SOON == 3_000_000_000,
        client::RETRY_LATE == 86_400_000_000_000,
        multi_display::FIRST_PICTURE == 20_000_000_000,
        audio::PACKET_DURATION == 10_000_000,
        media::LATENCY_MS == 100,
{
}

/// The stages of the pipelines that do not depend on anything.
pub proof fn stages_of_pipelines()
    ensures
        audio::ENCODE@
            == " ! audioconvert ! audioresample ! audio/x-raw,rate=48000,channels=2 ! opusenc bitrate=128000 frame-size=10 audio-type=restricted-lowdelay ! appsink name=encoded_audio sync=false max-buffers=4 drop=false"@,
        audio::DECODE@
            == "appsrc name=audio_in is-live=true format=time do-timestamp=true max-bytes=65536 block=false caps=audio/x-opus,rate=48000,channels=2,channel-mapping-family=0 ! opusdec ! audioconvert ! audioresample ! volume name=audio_volume ! queue max-size-time=100000000 max-size-buffers=0 max-size-bytes=0 leaky=downstream ! "@,
        audio::OUTPUT@ == "autoaudiosink"@,
        audio::COUNTED@ == "appsink name=audio_pcm sync=false max-buffers=4 drop=true"@,
        media::PROBE@ == "videotestsrc num-buffers=3 ! video/x-raw,format=NV12,width="@,
        media::PROBE_END@ == " ! h264parse ! appsink name=probe sync=false"@,
        media::ENCODE_QUEUE@
            == " ! queue max-size-buffers=2 max-size-bytes=0 max-size-time=0 leaky=downstream ! videoconvert ! videoscale ! videorate drop-only=true ! video/x-raw,format=NV12,width="@,
        media::ENCODE_END@
            == " ! h264parse config-interval=-1 ! video/x-h264,stream-format=byte-stream,alignment=au ! appsink name=encoded sync=false max-buffers=2 drop=false"@,
        media::DECODE@
            == "appsrc name=in is-live=true format=time do-timestamp=true max-bytes=16777216 block=false caps=video/x-h264,stream-format=byte-stream,alignment=au ! h264parse ! "@,
        media::DECODE_END@
            == " ! videoconvert ! video/x-raw,format=RGB ! appsink name=frames sync=false max-buffers=1 drop=true"@,
        decoder::HDR_OUTPUT@
            == "capsfilter name=hdr_decoded caps=\"video/x-raw,format=(string){P010_10LE,I420_10LE,AYUV64},colorimetry=bt2100-pq;video/x-raw,format=(string){ARGB64_BE,RGBA64_LE},colorimetry=1:1:14:7\" ! videoconvert ! video/x-raw,format=P010_10LE,colorimetry=bt2100-pq,chroma-site=jpeg,width=[2,7680],height=[2,8192]"@,
        decoder::SDR_OUTPUT@
            == "videoconvert ! video/x-raw,format=RGB,width=[2,7680],height=[2,8192]"@,
        decoder::X265_MAIN10@
            == "x265enc tune=zerolatency speed-preset=ultrafast option-string=pools=1:frame-threads=1:log-level=error ! video/x-h265,profile=main-10"@,
        decoder::X264_BASELINE@
            == "x264enc tune=zerolatency speed-preset=ultrafast bframes=0 threads=2 ! video/x-h264,profile=constrained-baseline"@,
        decoder::X265_MAIN@
            == "x265enc tune=zerolatency speed-preset=ultrafast option-string=pools=1:frame-threads=1:log-level=error ! video/x-h265,profile=main"@,
        hdr::SOFTWARE_SETTINGS@
            == "bitrate=2000 key-int-max=15 tune=zerolatency speed-preset=ultrafast option-string=pools=1:frame-threads=1:log-level=error"@,
{
}

/// What the windows say of themselves.
pub proof fn what_the_windows_say()
    ensures
        launcher::WELCOME@ == "Import a pairing file received securely from your Linux host."@,
        launcher::SELECTED@ == "Saved host selected. Connect uses its trusted pairing."@,
        host_ui::UPDATED@
            == "Host settings updated. Existing trusted devices stay connected unless revoked."@,
        client::CLIPBOARD_SMOKE@ == "Teleport clipboard smoke ✓\nline 2"@,
{
}

/// Services that share a port are told apart, whatever follows the first bytes.
pub proof fn services_differ()
    ensures
        access::MAGIC@ != pairing::MAGIC@,
        access::MAGIC@ != access::TOUCH_MAGIC@,
        access::MAGIC@.len() == 8 && pairing::MAGIC@.len() == 8 && access::TOUCH_MAGIC@.len() == 8,
        ssh_agent::REQUEST_TRACK@ != ssh_agent::RESPONSE_TRACK@,
{
    reveal_strlit("TPAUTH01");
    reveal_strlit("TPPAIR01");
    reveal_strlit("TPU2F001");
    reveal_strlit("ssh-agent-requests-v1");
    reveal_strlit("ssh-agent-responses-v1");
    assert("TPAUTH01"@[2] == 'A' && "TPPAIR01"@[2] == 'P' && "TPU2F001"@[2] == 'U');
    assert("ssh-agent-requests-v1"@.len() == 21 && "ssh-agent-responses-v1"@.len() == 22);
}

} // verus!
