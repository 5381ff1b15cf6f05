//! The connection strings that clients import.

use crate::decimal;
use crate::decimal::{push_u64, u64_text};
use crate::json;
use crate::json::codec;
use crate::json::{Json, JsonV};
use crate::text;
use crate::text::{chars_of, contains_char, replace_char};
use crate::xray::types::VlessUrlParams;
use vstd::prelude::*;

verus! {

// ---- percent-encoding ----

/// A character that is allowed in the fragment of a URL, and so stands there as it is: a letter, a
/// digit or one of `-._~!$&'()*+,;=:@/?` (RFC 3986, section 3.5).
pub open spec fn is_plain(c: char) -> bool {
    'A' <= c <= 'Z' || 'a' <= c <= 'z' || text::is_digit(c) || c == '-' || c == '_' || c == '.'
        || c == '~' || c == '!' || c == '$' || c == '&' || c == '\'' || c == '(' || c == ')' || c
        == '*' || c == '+' || c == ',' || c == ';' || c == '=' || c == ':' || c == '@' || c == '/'
        || c == '?'
}

/// An upper-case hexadecimal digit.
pub open spec fn hex(d: nat) -> char {
    if d < 10 {
        (('0' as int) + d) as char
    } else {
        (('A' as int) + d - 10) as char
    }
}

/// Bytes, each as `%` and two hexadecimal digits.
pub open spec fn percent(b: Seq<u8>) -> Seq<char>
    decreases b.len(),
{
    if b.len() == 0 {
        Seq::empty()
    } else {
        percent(b.drop_last()) + seq!['%', hex(b.last() as nat / 16), hex(b.last() as nat % 16)]
    }
}

/// A character as a fragment holds it.
pub open spec fn encoded_char(c: char) -> Seq<char> {
    if is_plain(c) {
        seq![c]
    } else {
        percent(vstd::utf8::encode_utf8(seq![c]))
    }
}

/// A text as a fragment holds it.
pub open spec fn encoded(s: Seq<char>) -> Seq<char>
    decreases s.len(),
{
    if s.len() == 0 {
        Seq::empty()
    } else {
        encoded(s.drop_last()) + encoded_char(s.last())
    }
}

fn char_is_plain(c: char) -> (r: bool)
    ensures
        r == is_plain(c),
{
    ('A' <= c && c <= 'Z') || ('a' <= c && c <= 'z') || ('0' <= c && c <= '9') || c == '-' || c
        == '_' || c == '.' || c == '~' || c == '!' || c == '$' || c == '&' || c == '\'' || c == '('
        || c == ')' || c == '*' || c == '+' || c == ',' || c == ';' || c == '=' || c == ':' || c
        == '@' || c == '/' || c == '?'
}

fn push_hex(s: &mut String, d: u8)
    requires
        d < 16,
    ensures
        final(s)@ == old(s)@.push(hex(d as nat)),
{
    let b: u8 = if d < 10 {
        48 + d
    } else {
        55 + d
    };
    s.push(b as char);
}

fn push_percent(s: &mut String, b: &[u8])
    ensures
        final(s)@ == old(s)@ + percent(b@),
{
    let ghost start = s@;
    let mut i: usize = 0;
    assert(b@.take(0) =~= Seq::empty());
    assert(start + percent(b@.take(0)) =~= start);
    while i < b.len()
        invariant
            i <= b@.len(),
            s@ == start + percent(b@.take(i as int)),
        decreases b.len() - i,
    {
        assert(b@.take(i + 1).drop_last() =~= b@.take(i as int));
        let x: u8 = b[i];
        s.push('%');
        push_hex(s, x / 16);
        push_hex(s, x % 16);
        assert(s@ =~= start + percent(b@.take(i + 1)));
        i += 1;
    }
    assert(b@.take(i as int) =~= b@);
}

/// Percent-encode a text for the fragment of a URL: only what is not allowed there.
pub fn urlencode_fragment(s: &str) -> (r: String)
    ensures
        r@ == encoded(s@),
{
    let v = chars_of(s);
    let mut r = String::new();
    let mut i: usize = 0;
    while i < v.len()
        invariant
            i <= v@.len(),
            r@ == encoded(v@.take(i as int)),
        decreases v.len() - i,
    {
        assert(v@.take(i + 1).drop_last() =~= v@.take(i as int));
        let ghost before = r@;
        let c = v[i];
        if char_is_plain(c) {
            r.push(c);
            assert(r@ =~= before + seq![c]);
        } else {
            let mut one = String::new();
            one.push(c);
            assert(one@ =~= seq![c]);
            push_percent(&mut r, one.as_str().as_bytes());
        }
        i += 1;
    }
    assert(v@.take(i as int) =~= v@);
    r
}

proof fn lemma_percent_chars(b: Seq<u8>)
    ensures
        forall|i: int|
            0 <= i < percent(b).len() ==> is_plain(#[trigger] percent(b)[i]) || percent(b)[i]
                == '%',
    decreases b.len(),
{
    if b.len() > 0 {
        lemma_percent_chars(b.drop_last());
        let before = percent(b.drop_last());
        assert forall|i: int| 0 <= i < percent(b).len() implies is_plain(#[trigger] percent(b)[i])
            || percent(b)[i] == '%' by {
            if i < before.len() {
                assert(percent(b)[i] == before[i]);
            }
        }
    }
}

/// An encoded fragment holds plain characters and percent signs only.
pub proof fn law_encoded_is_plain(s: Seq<char>)
    ensures
        forall|i: int|
            0 <= i < encoded(s).len() ==> is_plain(#[trigger] encoded(s)[i]) || encoded(s)[i]
                == '%',
    decreases s.len(),
{
    if s.len() > 0 {
        law_encoded_is_plain(s.drop_last());
        lemma_percent_chars(vstd::utf8::encode_utf8(seq![s.last()]));
        let before = encoded(s.drop_last());
        assert forall|i: int| 0 <= i < encoded(s).len() implies is_plain(#[trigger] encoded(s)[i])
            || encoded(s)[i] == '%' by {
            if i < before.len() {
                assert(encoded(s)[i] == before[i]);
            } else {
                assert(encoded(s)[i] == encoded_char(s.last())[i - before.len()]);
            }
        }
    }
}

// ---- vless:// ----

/// A host as a URL holds it: an IPv6 address stands in brackets.
pub open spec fn url_host(host: Seq<char>) -> Seq<char> {
    if host.contains(':') {
        "["@ + host + "]"@
    } else {
        host
    }
}

/// The `vless://` URL of a client.
pub open spec fn vless_link(
    uuid: Seq<char>,
    host: Seq<char>,
    port: nat,
    path: Seq<char>,
    sni: Seq<char>,
    public_key: Seq<char>,
    short_id: Seq<char>,
) -> Seq<char> {
    "vless://"@ + uuid + "@"@ + url_host(host) + ":"@ + decimal::dec(port)
        + "?encryption=none&type=xhttp&path="@ + text::replaced(path, '/', "%2F"@)
        + "&security=reality&sni="@ + sni + "&fp=chrome&pbk="@ + public_key + "&sid="@ + short_id
        + "#"@ + encoded("LT-Xray"@)
}

/// The `vless://` URL that these parameters make.
pub open spec fn vless_url(p: VlessUrlParams) -> Seq<char> {
    vless_link(
        p.uuid@,
        p.host@,
        p.port as nat,
        p.path@,
        p.sni@,
        p.public_key@,
        p.short_id@,
    )
}

/// Generate the `vless://` URL that a client imports.
pub fn generate_vless_url(params: &VlessUrlParams) -> (r: String)
    ensures
        r@ == vless_url(*params),
{
    let mut s = "vless://".to_owned();
    s.append(&params.uuid);
    s.append("@");
    let host: String = if contains_char(&params.host, ':') {
        let mut h = "[".to_owned();
        h.append(&params.host);
        h.append("]");
        h
    } else {
        params.host.clone()
    };
    s.append(&host);
    s.append(":");
    push_u64(&mut s, params.port as u64);
    s.append("?encryption=none&type=xhttp&path=");
    s.append(&replace_char(&params.path, '/', "%2F"));
    s.append("&security=reality&sni=");
    s.append(&params.sni);
    s.append("&fp=chrome&pbk=");
    s.append(&params.public_key);
    s.append("&sid=");
    s.append(&params.short_id);
    s.append("#");
    s.append(&urlencode_fragment("LT-Xray"));
    s
}

// ---- vpn:// ----

/// The configuration that the client runs Xray with.
pub open spec fn client_config(p: VlessUrlParams) -> JsonV {
    let e = json::empty_object();
    e.put("log"@, e.put("loglevel"@, JsonV::Str("error"@))).put(
        "inbounds"@,
        JsonV::Array(
            seq![
                e.put("listen"@, JsonV::Str("127.0.0.1"@)).put("port"@, JsonV::UInt(10808)).put(
                    "protocol"@,
                    JsonV::Str("socks"@),
                ).put("settings"@, e.put("udp"@, JsonV::Bool(true))),
            ],
        ),
    ).put(
        "outbounds"@,
        JsonV::Array(
            seq![
                e.put("protocol"@, JsonV::Str("vless"@)).put(
                    "settings"@,
                    e.put(
                        "vnext"@,
                        JsonV::Array(
                            seq![
                                e.put("address"@, JsonV::Str(p.host@)).put(
                                    "port"@,
                                    JsonV::UInt(p.port as u64),
                                ).put(
                                    "users"@,
                                    JsonV::Array(
                                        seq![
                                            e.put("id"@, JsonV::Str(p.uuid@)).put(
                                                "encryption"@,
                                                JsonV::Str("none"@),
                                            ),
                                        ],
                                    ),
                                ),
                            ],
                        ),
                    ),
                ).put(
                    "streamSettings"@,
                    e.put("network"@, JsonV::Str("xhttp"@)).put(
                        "security"@,
                        JsonV::Str("reality"@),
                    ).put("xhttpSettings"@, e.put("path"@, JsonV::Str(p.path@))).put(
                        "realitySettings"@,
                        e.put("fingerprint"@, JsonV::Str("chrome"@)).put(
                            "serverName"@,
                            JsonV::Str(p.sni@),
                        ).put("publicKey"@, JsonV::Str(p.public_key@)).put(
                            "shortId"@,
                            JsonV::Str(p.short_id@),
                        ).put("spiderX"@, JsonV::Str(""@)),
                    ),
                ),
            ],
        ),
    )
}

/// The descriptor that AmneziaVPN imports, around the client's configuration as text.
pub open spec fn amnezia_config(p: VlessUrlParams, last_config: Seq<char>) -> JsonV {
    let e = json::empty_object();
    e.put(
        "containers"@,
        JsonV::Array(
            seq![
                e.put("container"@, JsonV::Str("amnezia-xray"@)).put(
                    "xray"@,
                    e.put("last_config"@, JsonV::Str(last_config)).put(
                        "port"@,
                        JsonV::Str(decimal::dec(p.port as nat)),
                    ).put("transport_proto"@, JsonV::Str("xhttp"@)),
                ),
            ],
        ),
    ).put("defaultContainer"@, JsonV::Str("amnezia-xray"@)).put(
        "description"@,
        JsonV::Str("LT-Xray"@),
    ).put("dns1"@, JsonV::Str("1.1.1.1"@)).put("dns2"@, JsonV::Str("1.0.0.1"@)).put(
        "hostName"@,
        JsonV::Str(p.host@),
    )
}

/// The configuration that the client runs Xray with.
pub fn build_client_config(p: &VlessUrlParams) -> (r: Json)
    ensures
        r@ == client_config(*p),
{
    let listener = Json::object().with("listen", Json::text("127.0.0.1")).with(
        "port",
        Json::UInt(10808),
    ).with("protocol", Json::text("socks")).with(
        "settings",
        Json::object().with("udp", Json::Bool(true)),
    );
    let user = Json::object().with("id", Json::text(&p.uuid)).with("encryption", Json::text("none"));
    let server = Json::object().with("address", Json::text(&p.host)).with(
        "port",
        Json::UInt(p.port as u64),
    ).with("users", Json::list(user));
    let reality = Json::object().with("fingerprint", Json::text("chrome")).with(
        "serverName",
        Json::text(&p.sni),
    ).with("publicKey", Json::text(&p.public_key)).with("shortId", Json::text(&p.short_id)).with(
        "spiderX",
        Json::text(""),
    );
    let stream = Json::object().with("network", Json::text("xhttp")).with(
        "security",
        Json::text("reality"),
    ).with("xhttpSettings", Json::object().with("path", Json::text(&p.path))).with(
        "realitySettings",
        reality,
    );
    let outbound = Json::object().with("protocol", Json::text("vless")).with(
        "settings",
        Json::object().with("vnext", Json::list(server)),
    ).with("streamSettings", stream);
    Json::object().with("log", Json::object().with("loglevel", Json::text("error"))).with(
        "inbounds",
        Json::list(listener),
    ).with("outbounds", Json::list(outbound))
}

/// The descriptor that AmneziaVPN imports, around the client's configuration as text.
pub fn build_amnezia_config(p: &VlessUrlParams, last_config: &str) -> (r: Json)
    ensures
        r@ == amnezia_config(*p, last_config@),
{
    let xray = Json::object().with("last_config", Json::text(last_config)).with(
        "port",
        Json::text(&u64_text(p.port as u64)),
    ).with("transport_proto", Json::text("xhttp"));
    let container = Json::object().with("container", Json::text("amnezia-xray")).with("xray", xray);
    Json::object().with("containers", Json::list(container)).with(
        "defaultContainer",
        Json::text("amnezia-xray"),
    ).with("description", Json::text("LT-Xray")).with("dns1", Json::text("1.1.1.1")).with(
        "dns2",
        Json::text("1.0.0.1"),
    ).with("hostName", Json::text(&p.host))
}

/// A number modulo 2^32 as four bytes, the most significant first.
pub open spec fn big_endian(n: nat) -> Seq<u8> {
    let m = n % 0x1_0000_0000;
    seq![
        (m / 0x100_0000) as u8,
        (m / 0x1_0000 % 0x100) as u8,
        (m / 0x100 % 0x100) as u8,
        (m % 0x100) as u8,
    ]
}

/// The number that four bytes stand for.
pub open spec fn from_big_endian(b: Seq<u8>) -> nat {
    (b[0] as nat) * 0x100_0000 + (b[1] as nat) * 0x1_0000 + (b[2] as nat) * 0x100 + b[3] as nat
}

/// The header gives the length back, if it is below 2^32.
pub proof fn law_header_gives_length(n: nat)
    requires
        n < 0x1_0000_0000,
    ensures
        from_big_endian(big_endian(n)) == n,
{
}

/// Compressed data behind the length of what was compressed.
pub fn framed(len: usize, compressed: &Vec<u8>) -> (r: Vec<u8>)
    ensures
        r@ == big_endian(len as nat) + compressed@,
{
    let m: u64 = (len as u64) % 0x1_0000_0000;
    let mut out: Vec<u8> = Vec::new();
    out.push((m / 0x100_0000) as u8);
    out.push((m / 0x1_0000 % 0x100) as u8);
    out.push((m / 0x100 % 0x100) as u8);
    out.push((m % 0x100) as u8);
    assert(out@ =~= big_endian(len as nat));
    let mut i: usize = 0;
    while i < compressed.len()
        invariant
            i <= compressed@.len(),
            out@ == big_endian(len as nat) + compressed@.take(i as int),
        decreases compressed.len() - i,
    {
        out.push(compressed[i]);
        assert(out@ =~= big_endian(len as nat) + compressed@.take(i + 1));
        i += 1;
    }
    assert(compressed@.take(i as int) =~= compressed@);
    out
}

/// What `flate2` writes for bytes with its default compression, in the zlib format.
pub uninterp spec fn zlib_bytes(b: Seq<u8>) -> Seq<u8>;

/// What `base64`'s URL-safe engine without padding writes for bytes.
pub uninterp spec fn base64_url_text(b: Seq<u8>) -> Seq<char>;

/// Writes the bytes through `flate2::write::ZlibEncoder` with `Compression::default()` into a
/// vector, which does not fail. What comes out is named.
#[verifier::external_body]
fn zlib_of(b: &[u8]) -> (r: Vec<u8>)
    ensures
        r@ == zlib_bytes(b@),
{
    let mut encoder = flate2::write::ZlibEncoder::new(Vec::new(), flate2::Compression::default());
    std::io::Write::write_all(&mut encoder, b).expect("writing to a vector");
    encoder.finish().expect("writing to a vector")
}

/// A character of the URL-safe base64 alphabet.
pub open spec fn is_base64_url(c: char) -> bool {
    'A' <= c <= 'Z' || 'a' <= c <= 'z' || text::is_digit(c) || c == '-' || c == '_'
}

/// Calls `base64::engine::general_purpose::URL_SAFE_NO_PAD.encode`. What it writes is named; it
/// holds no other characters than those of the alphabet.
#[verifier::external_body]
fn base64_url_of(b: &[u8]) -> (r: String)
    ensures
        r@ == base64_url_text(b@),
        forall|i: int| 0 <= i < r@.len() ==> is_base64_url(#[trigger] r@[i]),
{
    base64::Engine::encode(&base64::engine::general_purpose::URL_SAFE_NO_PAD, b)
}

/// The `vpn://` string of a descriptor as text: its bytes compressed, behind their length, in
/// base64.
pub open spec fn vpn_url(data: Seq<char>) -> Seq<char> {
    let b = vstd::utf8::encode_utf8(data);
    "vpn://"@ + base64_url_text(big_endian(b.len()) + zlib_bytes(b))
}

/// The descriptor that AmneziaVPN imports, as text.
pub open spec fn amnezia_data(p: VlessUrlParams) -> Seq<char> {
    codec::compact_text(
        amnezia_config(p, codec::pretty_text(client_config(p)) + "\n"@),
    )
}

/// Generate the `vpn://` string that AmneziaVPN imports.
pub fn generate_amnezia_url(params: &VlessUrlParams) -> (r: String)
    ensures
        r@ == vpn_url(amnezia_data(*params)),
        forall|i: int| 6 <= i < r@.len() ==> is_base64_url(#[trigger] r@[i]),
{
    let mut last_config = build_client_config(params).to_pretty();
    last_config.append("\n");
    let data = build_amnezia_config(params, &last_config).to_text();
    let bytes = data.as_str().as_bytes();
    let compressed = zlib_of(bytes);
    let payload = framed(bytes.len(), &compressed);
    let body = base64_url_of(&payload);
    let mut s = "vpn://".to_owned();
    s.append(&body);
    proof {
        reveal_strlit("vpn://");
        assert forall|i: int| 6 <= i < s@.len() implies is_base64_url(#[trigger] s@[i]) by {
            assert(s@[i] == body@[i - 6]);
        }
    }
    s
}

/// The call that adds a user to the running server.
pub open spec fn adu_call(uuid: Seq<char>, email: Seq<char>, inbound_tag: Seq<char>) -> JsonV {
    let e = json::empty_object();
    e.put("inboundTag"@, JsonV::Str(inbound_tag)).put(
        "user"@,
        e.put("email"@, JsonV::Str(email)).put("level"@, JsonV::UInt(0)).put(
            "account"@,
            e.put("id"@, JsonV::Str(uuid)).put("encryption"@, JsonV::Str("none"@)),
        ),
    )
}

proof fn lemma_adu_readable(uuid: Seq<char>, email: Seq<char>, inbound_tag: Seq<char>)
    ensures
        codec::readable(adu_call(uuid, email, inbound_tag), codec::depth_limit()),
{
    let e = json::empty_object();
    let n = codec::depth_limit();
    let n1 = (n - 1) as nat;
    let n2 = (n - 2) as nat;
    let a1 = e.put("id"@, JsonV::Str(uuid));
    codec::lemma_put_readable(e, "id"@, JsonV::Str(uuid), n2);
    codec::lemma_put_readable(a1, "encryption"@, JsonV::Str("none"@), n2);
    let account = a1.put("encryption"@, JsonV::Str("none"@));
    let u1 = e.put("email"@, JsonV::Str(email));
    codec::lemma_put_readable(e, "email"@, JsonV::Str(email), n1);
    let u2 = u1.put("level"@, JsonV::UInt(0));
    codec::lemma_put_readable(u1, "level"@, JsonV::UInt(0), n1);
    codec::lemma_put_readable(u2, "account"@, account, n1);
    let c1 = e.put("inboundTag"@, JsonV::Str(inbound_tag));
    codec::lemma_put_readable(e, "inboundTag"@, JsonV::Str(inbound_tag), n);
    codec::lemma_put_readable(c1, "user"@, u2.put("account"@, account), n);
}

/// The call that adds a user to the running server.
pub fn build_adu_call(uuid: &str, email: &str, inbound_tag: &str) -> (r: Json)
    ensures
        r@ == adu_call(uuid@, email@, inbound_tag@),
{
    let account = Json::object().with("id", Json::text(uuid)).with("encryption", Json::text("none"));
    let user = Json::object().with("email", Json::text(email)).with("level", Json::UInt(0)).with(
        "account",
        account,
    );
    Json::object().with("inboundTag", Json::text(inbound_tag)).with("user", user)
}

/// Build the JSON of the call that adds a user to the running server.
pub fn build_adu_json(uuid: &str, email: &str, inbound_tag: &str) -> (r: String)
    ensures
        r@ == codec::compact_text(adu_call(uuid@, email@, inbound_tag@)),
        codec::reads_as(r@, adu_call(uuid@, email@, inbound_tag@)),
{
    proof {
        lemma_adu_readable(uuid@, email@, inbound_tag@);
    }
    build_adu_call(uuid, email, inbound_tag).to_text()
}

// ---- laws ----

/// A character that a fragment holds as it is.
pub open spec fn stands_for_itself(c: char) -> bool {
    'a' <= c <= 'z' || 'A' <= c <= 'Z' || '0' <= c <= '9' || "-._~!$&'()*+,;=:@/?"@.contains(c)
}

/// The byte stands in the text from a place on: a percent sign and its two digits.
pub open spec fn byte_at(t: Seq<char>, i: int, b: u8) -> bool {
    0 <= i && i + 3 <= t.len() && t[i] == '%' && t[i + 1] == "0123456789ABCDEF"@[(b / 16) as int]
        && t[i + 2] == "0123456789ABCDEF"@[(b % 16) as int]
}

proof fn lemma_hex(d: nat)
    requires
        d < 16,
    ensures
        hex(d) == "0123456789ABCDEF"@[d as int],
{
    reveal_strlit("0123456789ABCDEF");
}

proof fn lemma_percent(b: Seq<u8>)
    ensures
        percent(b).len() == 3 * b.len(),
        forall|i: int| 0 <= i < b.len() ==> byte_at(percent(b), 3 * i, #[trigger] b[i]),
    decreases b.len(),
{
    if b.len() > 0 {
        let t = b.drop_last();
        lemma_percent(t);
        let p = percent(t);
        let x = b.last();
        lemma_hex(x as nat / 16);
        lemma_hex(x as nat % 16);
        assert forall|i: int| 0 <= i < b.len() implies byte_at(
            percent(b),
            3 * i,
            #[trigger] b[i],
        ) by {
            if i < t.len() {
                assert(byte_at(p, 3 * i, t[i]));
                assert(percent(b)[3 * i] == p[3 * i]);
                assert(percent(b)[3 * i + 1] == p[3 * i + 1]);
                assert(percent(b)[3 * i + 2] == p[3 * i + 2]);
            }
        }
    }
}

proof fn lemma_plain(c: char)
    ensures
        is_plain(c) == stands_for_itself(c),
{
    let p = "-._~!$&'()*+,;=:@/?"@;
    reveal_strlit("-._~!$&'()*+,;=:@/?");
    if p.contains(c) {
        let i = p.index_of(c);
        assert(p[i] == c);
    }
    if is_plain(c) && !('a' <= c <= 'z' || 'A' <= c <= 'Z' || '0' <= c <= '9') {
        assert(p[0] == '-' && p[1] == '.' && p[2] == '_' && p[3] == '~' && p[4] == '!' && p[5] == '$'
            && p[6] == '&' && p[7] == '\'' && p[8] == '(' && p[9] == ')' && p[10] == '*' && p[11]
            == '+' && p[12] == ',' && p[13] == ';' && p[14] == '=' && p[15] == ':' && p[16] == '@'
            && p[17] == '/' && p[18] == '?');
        assert(exists|i: int| 0 <= i < p.len() && p[i] == c);
    }
}

/// **A fragment is encoded character by character, and only what has to be is.** One character more
/// comes behind what there was: as it is, where it may stand in a fragment, else each of its bytes as
/// a percent sign and two digits.
pub proof fn law_fragment_is_encoded_character_by_character(
    a: &str,
    b: &str,
    c: char,
    r: String,
    s: String,
    t: Seq<char>,
)
    requires
        call_ensures(urlencode_fragment, (a,), r),
        call_ensures(urlencode_fragment, (b,), s),
        b@ == a@.push(c),
        t == s@.skip(r@.len() as int),
    ensures
        a@.len() == 0 ==> r@.len() == 0,
        r@.is_prefix_of(s@),
        stands_for_itself(c) ==> t == seq![c],
        !stands_for_itself(c) ==> t.len() == 3 * vstd::utf8::encode_utf8(seq![c]).len() && forall|
            i: int,
        |
            0 <= i < vstd::utf8::encode_utf8(seq![c]).len() ==> byte_at(
                t,
                3 * i,
                #[trigger] vstd::utf8::encode_utf8(seq![c])[i],
            ),
{
    assert(b@.drop_last() =~= a@);
    lemma_plain(c);
    lemma_percent(vstd::utf8::encode_utf8(seq![c]));
    assert(t =~= encoded_char(c));
}

/// **A URL holds what it was made of, each part in its place.** A host with colons stands in brackets;
/// the slashes of the path are written as `%2F`; all other parts stand as they are.
pub proof fn law_url_holds_its_parts(
    p: VlessUrlParams,
    path: &str,
    slash: &str,
    q: String,
    r: String,
)
    requires
        call_ensures(generate_vless_url, (&p,), r),
        path@ == p.path@,
        slash@ == "%2F"@,
        call_ensures(replace_char, (path, '/', slash), q),
    ensures
        r@ == "vless://"@ + p.uuid@ + "@"@ + (if exists|i: int|
            0 <= i < p.host@.len() && #[trigger] p.host@[i] == ':' {
            "["@ + p.host@ + "]"@
        } else {
            p.host@
        }) + ":"@ + decimal::dec(p.port as nat) + "?encryption=none&type=xhttp&path="@ + q@
            + "&security=reality&sni="@ + p.sni@ + "&fp=chrome&pbk="@ + p.public_key@ + "&sid="@
            + p.short_id@ + "#"@ + "LT-Xray"@,
{
    let n = "LT-Xray"@;
    reveal_strlit("LT-Xray");
    assert(encoded(n) =~= n) by {
        lemma_encoded_plain(n);
    }
    let colon = exists|i: int| 0 <= i < p.host@.len() && #[trigger] p.host@[i] == ':';
    if p.host@.contains(':') {
        let i = p.host@.index_of(':');
        assert(p.host@[i] == ':');
        assert(colon);
    }
    assert(colon == p.host@.contains(':'));
}

proof fn lemma_encoded_plain(s: Seq<char>)
    requires
        forall|i: int| 0 <= i < s.len() ==> is_plain(#[trigger] s[i]),
    ensures
        encoded(s) == s,
    decreases s.len(),
{
    if s.len() > 0 {
        lemma_encoded_plain(s.drop_last());
        assert(s.drop_last() + seq![s.last()] =~= s);
    }
}

/// The only element of the array that a member is.
pub open spec fn only_at(j: JsonV, k: Seq<char>) -> Option<JsonV> {
    match j.get(k) {
        Some(JsonV::Array(a)) => if a.len() == 1 {
            Some(a[0])
        } else {
            None
        },
        _ => None,
    }
}

/// **A client connects to the host and the port of the server, as the user with the id.**
pub proof fn law_client_connects_as_its_user(p: VlessUrlParams, r: Json)
    requires
        call_ensures(build_client_config, (&p,), r),
    ensures
        only_at(r@, "outbounds"@) matches Some(o) && o.get("protocol"@) == Some(
            JsonV::Str("vless"@),
        ) && (o.get("settings"@) matches Some(t) && (only_at(t, "vnext"@) matches Some(v) && v.get(
            "address"@,
        ) == Some(JsonV::Str(p.host@)) && v.get("port"@) == Some(JsonV::UInt(p.port as u64)) && (
        only_at(v, "users"@) matches Some(u) && u.get("id"@) == Some(JsonV::Str(p.uuid@)) && u.get(
            "encryption"@,
        ) == Some(JsonV::Str("none"@))))),
{
    json::lemma_put_get();
    reveal_strlit("log");
    reveal_strlit("inbounds");
    reveal_strlit("outbounds");
    reveal_strlit("protocol");
    reveal_strlit("settings");
    reveal_strlit("streamSettings");
    reveal_strlit("address");
    reveal_strlit("port");
    reveal_strlit("users");
    reveal_strlit("id");
    reveal_strlit("encryption");
    assert("log"@.len() != "inbounds"@.len());
    assert("log"@.len() != "outbounds"@.len());
    assert("inbounds"@.len() != "outbounds"@.len());
    assert("protocol"@[0] != "settings"@[0]);
    assert("protocol"@.len() != "streamSettings"@.len());
    assert("settings"@.len() != "streamSettings"@.len());
    assert("address"@.len() != "port"@.len());
    assert("address"@.len() != "users"@.len());
    assert("port"@.len() != "users"@.len());
    assert("id"@.len() != "encryption"@.len());
}

/// **A client talks to the server as the server expects it**: over the path, under the name, with the
/// public key and the short id of the parameters.
pub proof fn law_client_talks_as_the_server_expects(p: VlessUrlParams, r: Json)
    requires
        call_ensures(build_client_config, (&p,), r),
    ensures
        only_at(r@, "outbounds"@) matches Some(o) && (o.get("streamSettings"@) matches Some(t)
            && t.get("network"@) == Some(JsonV::Str("xhttp"@)) && t.get("security"@) == Some(
            JsonV::Str("reality"@),
        ) && (t.get("xhttpSettings"@) matches Some(x) && x.get("path"@) == Some(
            JsonV::Str(p.path@),
        )) && (t.get("realitySettings"@) matches Some(y) && y.get("serverName"@) == Some(
            JsonV::Str(p.sni@),
        ) && y.get("publicKey"@) == Some(JsonV::Str(p.public_key@)) && y.get("shortId"@) == Some(
            JsonV::Str(p.short_id@),
        ) && y.get("fingerprint"@) == Some(JsonV::Str("chrome"@)))),
{
    json::lemma_put_get();
    reveal_strlit("log");
    reveal_strlit("inbounds");
    reveal_strlit("outbounds");
    reveal_strlit("protocol");
    reveal_strlit("settings");
    reveal_strlit("streamSettings");
    reveal_strlit("network");
    reveal_strlit("security");
    reveal_strlit("xhttpSettings");
    reveal_strlit("realitySettings");
    reveal_strlit("fingerprint");
    reveal_strlit("serverName");
    reveal_strlit("publicKey");
    reveal_strlit("shortId");
    reveal_strlit("spiderX");
    assert("log"@.len() != "inbounds"@.len());
    assert("log"@.len() != "outbounds"@.len());
    assert("inbounds"@.len() != "outbounds"@.len());
    assert("protocol"@[0] != "settings"@[0]);
    assert("protocol"@.len() != "streamSettings"@.len());
    assert("settings"@.len() != "streamSettings"@.len());
    assert("network"@.len() != "security"@.len());
    assert("network"@.len() != "xhttpSettings"@.len());
    assert("network"@.len() != "realitySettings"@.len());
    assert("security"@.len() != "xhttpSettings"@.len());
    assert("security"@.len() != "realitySettings"@.len());
    assert("xhttpSettings"@.len() != "realitySettings"@.len());
    assert("fingerprint"@.len() != "serverName"@.len());
    assert("fingerprint"@.len() != "publicKey"@.len());
    assert("fingerprint"@.len() != "shortId"@.len());
    assert("fingerprint"@.len() != "spiderX"@.len());
    assert("serverName"@.len() != "publicKey"@.len());
    assert("serverName"@.len() != "shortId"@.len());
    assert("serverName"@.len() != "spiderX"@.len());
    assert("publicKey"@.len() != "shortId"@.len());
    assert("publicKey"@.len() != "spiderX"@.len());
    assert("shortId"@[1] != "spiderX"@[1]);
}

/// **A client listens on its own machine.**
pub proof fn law_client_listens_on_its_own_machine(p: VlessUrlParams, r: Json)
    requires
        call_ensures(build_client_config, (&p,), r),
    ensures
        only_at(r@, "inbounds"@) matches Some(i) && i.get("listen"@) == Some(
            JsonV::Str("127.0.0.1"@),
        ) && i.get("port"@) == Some(JsonV::UInt(10808)) && i.get("protocol"@) == Some(
            JsonV::Str("socks"@),
        ) && (i.get("settings"@) matches Some(t) && t.get("udp"@) == Some(JsonV::Bool(true))),
        r@.get("log"@) matches Some(l) && l.get("loglevel"@) == Some(JsonV::Str("error"@)),
{
    json::lemma_put_get();
    reveal_strlit("log");
    reveal_strlit("inbounds");
    reveal_strlit("outbounds");
    reveal_strlit("listen");
    reveal_strlit("port");
    reveal_strlit("protocol");
    reveal_strlit("settings");
    assert("log"@.len() != "inbounds"@.len());
    assert("log"@.len() != "outbounds"@.len());
    assert("inbounds"@.len() != "outbounds"@.len());
    assert("listen"@.len() != "port"@.len());
    assert("listen"@.len() != "protocol"@.len());
    assert("listen"@.len() != "settings"@.len());
    assert("port"@.len() != "protocol"@.len());
    assert("port"@.len() != "settings"@.len());
    assert("protocol"@[0] != "settings"@[0]);
}

/// **A descriptor names the host and holds the configuration of the client.**
pub proof fn law_descriptor_holds_the_configuration(p: VlessUrlParams, last: &str, r: Json)
    requires
        call_ensures(build_amnezia_config, (&p, last), r),
    ensures
        r@.get("hostName"@) == Some(JsonV::Str(p.host@)),
        r@.get("description"@) == Some(JsonV::Str("LT-Xray"@)),
        r@.get("dns1"@) == Some(JsonV::Str("1.1.1.1"@)),
        r@.get("dns2"@) == Some(JsonV::Str("1.0.0.1"@)),
        r@.get("defaultContainer"@) == Some(JsonV::Str("amnezia-xray"@)),
        only_at(r@, "containers"@) matches Some(c) && c.get("container"@) == Some(
            JsonV::Str("amnezia-xray"@),
        ) && (c.get("xray"@) matches Some(x) && x.get("last_config"@) == Some(JsonV::Str(last@))
            && x.get("port"@) == Some(JsonV::Str(decimal::dec(p.port as nat))) && x.get(
            "transport_proto"@,
        ) == Some(JsonV::Str("xhttp"@))),
{
    json::lemma_put_get();
    reveal_strlit("containers");
    reveal_strlit("defaultContainer");
    reveal_strlit("description");
    reveal_strlit("dns1");
    reveal_strlit("dns2");
    reveal_strlit("hostName");
    reveal_strlit("container");
    reveal_strlit("xray");
    reveal_strlit("last_config");
    reveal_strlit("port");
    reveal_strlit("transport_proto");
    assert("containers"@.len() != "defaultContainer"@.len());
    assert("containers"@.len() != "description"@.len());
    assert("containers"@.len() != "dns1"@.len());
    assert("containers"@.len() != "dns2"@.len());
    assert("containers"@.len() != "hostName"@.len());
    assert("defaultContainer"@.len() != "description"@.len());
    assert("defaultContainer"@.len() != "dns1"@.len());
    assert("defaultContainer"@.len() != "dns2"@.len());
    assert("defaultContainer"@.len() != "hostName"@.len());
    assert("description"@.len() != "dns1"@.len());
    assert("description"@.len() != "dns2"@.len());
    assert("description"@.len() != "hostName"@.len());
    assert("dns1"@[3] != "dns2"@[3]);
    assert("dns1"@.len() != "hostName"@.len());
    assert("dns2"@.len() != "hostName"@.len());
    assert("container"@.len() != "xray"@.len());
    assert("last_config"@.len() != "port"@.len());
    assert("last_config"@.len() != "transport_proto"@.len());
    assert("port"@.len() != "transport_proto"@.len());
}

/// **The server is told of the user under its id and its email**, at the inbound with the tag.
pub proof fn law_call_holds_the_user(uuid: &str, email: &str, tag: &str, r: Json)
    requires
        call_ensures(build_adu_call, (uuid, email, tag), r),
    ensures
        r@.get("inboundTag"@) == Some(JsonV::Str(tag@)),
        r@.get("user"@) matches Some(u) && u.get("email"@) == Some(JsonV::Str(email@)) && u.get(
            "level"@,
        ) == Some(JsonV::UInt(0)) && (u.get("account"@) matches Some(a) && a.get("id"@) == Some(
            JsonV::Str(uuid@),
        ) && a.get("encryption"@) == Some(JsonV::Str("none"@))),
{
    json::lemma_put_get();
    reveal_strlit("inboundTag");
    reveal_strlit("user");
    reveal_strlit("email");
    reveal_strlit("level");
    reveal_strlit("account");
    reveal_strlit("id");
    reveal_strlit("encryption");
    assert("inboundTag"@.len() != "user"@.len());
    assert("email"@[0] != "level"@[0]);
    assert("email"@.len() != "account"@.len());
    assert("level"@.len() != "account"@.len());
    assert("id"@.len() != "encryption"@.len());
}

/// **A header of four bytes gives the length back, and behind it stands what was compressed.**
pub proof fn law_frame_is_a_header_and_its_data(len: usize, data: Vec<u8>, r: Vec<u8>)
    requires
        call_ensures(framed, (len, &data), r),
        len < 0x1_0000_0000,
    ensures
        r@.len() == 4 + data@.len(),
        r@[0] * 0x100_0000 + r@[1] * 0x1_0000 + r@[2] * 0x100 + r@[3] == len,
        r@.skip(4) == data@,
{
    law_header_gives_length(len as nat);
    assert(r@.skip(4) =~= data@);
    assert(r@.take(4) =~= big_endian(len as nat));
    assert(r@[0] == big_endian(len as nat)[0] && r@[1] == big_endian(len as nat)[1] && r@[2]
        == big_endian(len as nat)[2] && r@[3] == big_endian(len as nat)[3]);
}

/// **A `vpn://` string packs the descriptor around the configuration of the client**: the text of the
/// descriptor is compressed, framed with the number of its bytes, and written in base64.
pub proof fn law_string_packs_the_descriptor(
    p: VlessUrlParams,
    c: Json,
    last: &str,
    d: Json,
    len: usize,
    packed: Vec<u8>,
    f: Vec<u8>,
    r: String,
)
    requires
        call_ensures(generate_amnezia_url, (&p,), r),
        call_ensures(build_client_config, (&p,), c),
        last@ == codec::pretty_text(c@) + "\n"@,
        call_ensures(build_amnezia_config, (&p, last), d),
        packed@ == zlib_bytes(vstd::utf8::encode_utf8(codec::compact_text(d@))),
        len == vstd::utf8::encode_utf8(codec::compact_text(d@)).len(),
        call_ensures(framed, (len, &packed), f),
    ensures
        r@ == "vpn://"@ + base64_url_text(f@),
{
}

} // verus!
