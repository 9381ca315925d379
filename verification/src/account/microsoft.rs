//! Microsoft accounts: the login chain's requests and responses, the expiry
//! of tokens, and the store.

use vstd::prelude::*;
use crate::account::store::{absent, find_by_id, first_with, remove_by_id, without, Identified};
use crate::error::Error;
use crate::json::Json;
use crate::outside::{base64_encode, base64_no_pad, parse_uuid, uuid_parse};
use crate::text::{push_str, string_of};

verus! {

/// A skin of a game profile.
#[derive(Debug)]
pub struct Skin {
    pub id: String,
    pub state: String,
    pub texture_key: String,
    pub url: String,
    pub variant: String,
}

/// A cape of a game profile.
#[derive(Debug)]
pub struct Cape {
    pub alias: String,
    pub id: String,
    pub state: String,
    pub url: String,
}

/// A game profile.
#[derive(Debug)]
pub struct Profile {
    pub profile_name: String,
    pub uuid: u128,
    pub skins: Vec<Skin>,
    pub capes: Vec<Cape>,
}

/// A Microsoft account with the tokens of its last login.
#[derive(Debug)]
pub struct MicrosoftAccount {
    pub refresh_token: String,
    pub access_token: String,
    /// When the access token expires, in seconds since the epoch.
    pub expires_on: u64,
    pub profile: Profile,
}

/// What a login starts from.
#[derive(Debug)]
pub enum LoginPayload {
    RefreshToken(String),
    AccessCode(String),
}

impl Identified for MicrosoftAccount {
    open spec fn spec_id(&self) -> u128 {
        self.profile.uuid
    }

    fn id(&self) -> (r: u128) {
        self.profile.uuid
    }
}

/// How long before its expiry a token is refreshed, in seconds: four hours.
pub open spec fn refresh_ahead() -> int {
    14400
}

/// A token is due for refresh when less than four hours of it remain.
pub open spec fn refresh_due(expires_on: u64, now: u64) -> bool {
    expires_on - now < refresh_ahead()
}

/// Whether the access token of an account is due for refresh. Where it is
/// not, checking the account changes nothing.
pub fn needs_refresh(account: &MicrosoftAccount, now: u64) -> (r: bool)
    ensures
        r == refresh_due(account.expires_on, now),
        account.expires_on - now > refresh_ahead() ==> !r,
{
    if account.expires_on < now {
        true
    } else {
        account.expires_on - now < 14400
    }
}

/// When a token that lasts `expires_in` seconds from `now` on expires.
pub fn expiry(now: u64, expires_in: u64) -> (r: u64)
    ensures
        r as int == (if now + expires_in > u64::MAX {
            u64::MAX as int
        } else {
            now + expires_in
        }),
{
    if now > u64::MAX - expires_in {
        u64::MAX
    } else {
        now + expires_in
    }
}

/// The endpoint that exchanges a code or a refresh token for tokens.
pub fn token_endpoint() -> (r: &'static str)
    ensures
        r@ == "https://login.live.com/oauth20_token.srf"@,
{
    "https://login.live.com/oauth20_token.srf"
}

/// The endpoint of the Xbox Live login.
pub fn xbox_endpoint() -> (r: &'static str)
    ensures
        r@ == "https://user.auth.xboxlive.com/user/authenticate"@,
{
    "https://user.auth.xboxlive.com/user/authenticate"
}

/// The endpoint of the XSTS authorisation.
pub fn xsts_endpoint() -> (r: &'static str)
    ensures
        r@ == "https://xsts.auth.xboxlive.com/xsts/authorize"@,
{
    "https://xsts.auth.xboxlive.com/xsts/authorize"
}

/// The endpoint of the Minecraft login.
pub fn minecraft_login_endpoint() -> (r: &'static str)
    ensures
        r@ == "https://api.minecraftservices.com/authentication/login_with_xbox"@,
{
    "https://api.minecraftservices.com/authentication/login_with_xbox"
}

/// The endpoint that tells whether the account owns the game.
pub fn ownership_endpoint() -> (r: &'static str)
    ensures
        r@ == "https://api.minecraftservices.com/entitlements/mcstore"@,
{
    "https://api.minecraftservices.com/entitlements/mcstore"
}

/// The endpoint of the game profile.
pub fn profile_endpoint() -> (r: &'static str)
    ensures
        r@ == "https://api.minecraftservices.com/minecraft/profile"@,
{
    "https://api.minecraftservices.com/minecraft/profile"
}

/// The form that asks for tokens.
pub open spec fn token_request_of(payload: LoginPayload) -> Seq<char> {
    match payload {
        LoginPayload::AccessCode(code) => "client_id=00000000402b5328"@
            + "&grant_type=authorization_code"@ + "&code="@ + code@
            + "&redirect_uri=https://login.live.com/oauth20_desktop.srf"@
            + "&scope=service::user.auth.xboxlive.com::MBI_SSL"@,
        LoginPayload::RefreshToken(token) => "client_id=00000000402b5328"@
            + "&grant_type=refresh_token"@ + "&refresh_token="@ + token@
            + "&redirect_uri=https://login.live.com/oauth20_desktop.srf"@
            + "&scope=service::user.auth.xboxlive.com::MBI_SSL"@,
    }
}

/// The body of the request that exchanges a code or a refresh token for
/// tokens.
pub fn token_request_body(payload: &LoginPayload) -> (r: String)
    ensures
        r@ == token_request_of(*payload),
{
    let mut out: Vec<char> = Vec::new();
    push_str(&mut out, "client_id=00000000402b5328");
    match payload {
        LoginPayload::AccessCode(code) => {
            push_str(&mut out, "&grant_type=authorization_code");
            push_str(&mut out, "&code=");
            push_str(&mut out, code.as_str());
        },
        LoginPayload::RefreshToken(token) => {
            push_str(&mut out, "&grant_type=refresh_token");
            push_str(&mut out, "&refresh_token=");
            push_str(&mut out, token.as_str());
        },
    }
    push_str(&mut out, "&redirect_uri=https://login.live.com/oauth20_desktop.srf");
    push_str(&mut out, "&scope=service::user.auth.xboxlive.com::MBI_SSL");
    string_of(&out)
}

/// The properties of the Xbox Live login request.
#[derive(Debug)]
pub struct XboxAuthProperties {
    pub auth_method: String,
    pub site_name: String,
    pub rps_ticket: String,
}

/// The body of the Xbox Live login request.
#[derive(Debug)]
pub struct XboxAuthBody {
    pub properties: XboxAuthProperties,
    pub relying_party: String,
    pub token_type: String,
}

impl XboxAuthBody {
    /// The request that logs into Xbox Live with a Microsoft access token.
    pub fn new(access_token: &str) -> (r: XboxAuthBody)
        ensures
            r.properties.auth_method@ == "RPS"@,
            r.properties.site_name@ == "user.auth.xboxlive.com"@,
            r.properties.rps_ticket@ == access_token@,
            r.relying_party@ == "http://auth.xboxlive.com"@,
            r.token_type@ == "JWT"@,
    {
        XboxAuthBody {
            properties: XboxAuthProperties {
                auth_method: "RPS".to_owned(),
                site_name: "user.auth.xboxlive.com".to_owned(),
                rps_ticket: access_token.to_owned(),
            },
            relying_party: "http://auth.xboxlive.com".to_owned(),
            token_type: "JWT".to_owned(),
        }
    }
}

/// The properties of the XSTS request.
#[derive(Debug)]
pub struct XSTSAuthProperties {
    pub sandbox_id: String,
    pub user_tokens: Vec<String>,
}

/// The body of the XSTS request.
#[derive(Debug)]
pub struct XSTSAuthBody {
    pub properties: XSTSAuthProperties,
    pub relying_party: String,
    pub token_type: String,
}

impl XSTSAuthBody {
    /// The request that authorises an Xbox Live token for the Minecraft
    /// services.
    pub fn new(xbl_token: &str) -> (r: XSTSAuthBody)
        ensures
            r.properties.sandbox_id@ == "RETAIL"@,
            r.properties.user_tokens@.len() == 1,
            r.properties.user_tokens@[0]@ == xbl_token@,
            r.relying_party@ == "rp://api.minecraftservices.com/"@,
            r.token_type@ == "JWT"@,
    {
        let mut user_tokens: Vec<String> = Vec::new();
        user_tokens.push(xbl_token.to_owned());
        XSTSAuthBody {
            properties: XSTSAuthProperties { sandbox_id: "RETAIL".to_owned(), user_tokens },
            relying_party: "rp://api.minecraftservices.com/".to_owned(),
            token_type: "JWT".to_owned(),
        }
    }
}

/// The body of the Minecraft login request.
#[derive(Debug)]
pub struct MinecraftAuthBody {
    pub identity_token: String,
}

impl MinecraftAuthBody {
    /// The request that logs into Minecraft: the identity token is
    /// `XBL3.0 x=<user hash>; <XSTS token>`.
    pub fn new(xbl_uhs: &str, xsts_token: &str) -> (r: MinecraftAuthBody)
        ensures
            r.identity_token@ == "XBL3.0 x="@ + xbl_uhs@ + "; "@ + xsts_token@,
    {
        let mut out: Vec<char> = Vec::new();
        push_str(&mut out, "XBL3.0 x=");
        push_str(&mut out, xbl_uhs);
        push_str(&mut out, "; ");
        push_str(&mut out, xsts_token);
        MinecraftAuthBody { identity_token: string_of(&out) }
    }
}

/// The value of the `Authorization` header for an access token.
pub fn bearer(access_token: &str) -> (r: String)
    ensures
        r@ == "Bearer "@ + access_token@,
{
    let mut out: Vec<char> = Vec::new();
    push_str(&mut out, "Bearer ");
    push_str(&mut out, access_token);
    string_of(&out)
}

/// The text under `key`, or the error that names the missing key as
/// `label`.
pub fn required_text(response: &Json, key: &str, label: &str) -> (r: Result<String, Error>)
    ensures
        match r {
            Ok(text) => response.member_text(key@) == Some(text@),
            Err(e) => e matches Error::MicrosoftResponseMissingKey(what) && what@ == label@
                && response.member_text(key@) is None,
        },
{
    match response.get_str(key) {
        Some(text) => Ok(text.to_owned()),
        None => Err(Error::MicrosoftResponseMissingKey(label.to_owned())),
    }
}

/// The tokens that the first step of the login yields.
#[derive(Debug)]
pub struct TokenResponse {
    pub access_token: String,
    pub expires_in: u64,
    pub refresh_token: String,
}

/// The first of the three keys that a token response lacks.
pub open spec fn token_response_gap(response: Json) -> Option<Seq<char>> {
    if response.member_text("access_token"@) is None {
        Some("access_token"@)
    } else if response.member_u64("expires_in"@) is None {
        Some("expires_in"@)
    } else if response.member_text("refresh_token"@) is None {
        Some("refresh_token"@)
    } else {
        None
    }
}

/// Reads the response of the token endpoint.
pub fn read_token_response(response: &Json) -> (r: Result<TokenResponse, Error>)
    ensures
        match r {
            Ok(tokens) => {
                &&& token_response_gap(*response) is None
                &&& response.member_text("access_token"@) == Some(tokens.access_token@)
                &&& response.member_u64("expires_in"@) == Some(tokens.expires_in)
                &&& response.member_text("refresh_token"@) == Some(tokens.refresh_token@)
            },
            Err(e) => e matches Error::MicrosoftResponseMissingKey(what)
                && token_response_gap(*response) == Some(what@),
        },
{
    let access_token = match required_text(response, "access_token", "access_token") {
        Ok(text) => text,
        Err(e) => {
            return Err(e);
        },
    };
    let expires_in = match response.get_u64("expires_in") {
        Some(n) => n,
        None => {
            return Err(Error::MicrosoftResponseMissingKey("expires_in".to_owned()));
        },
    };
    let refresh_token = match required_text(response, "refresh_token", "refresh_token") {
        Ok(text) => text,
        Err(e) => {
            return Err(e);
        },
    };
    Ok(TokenResponse { access_token, expires_in, refresh_token })
}

/// What the Xbox Live login yields.
#[derive(Debug)]
pub struct XboxAuth {
    pub xbl_token: String,
    pub xbl_uhs: String,
}

/// The user hash of an Xbox Live response: `DisplayClaims.xui[0].uhs`.
pub open spec fn user_hash_of(response: Json) -> Option<Seq<char>> {
    match response.member2("DisplayClaims"@, "xui"@) {
        Some(Json::Array(claims)) => if claims@.len() > 0 {
            claims@[0].member_text("uhs"@)
        } else {
            None
        },
        _ => None,
    }
}

/// Reads the response of the Xbox Live login.
pub fn read_xbox_response(response: &Json) -> (r: Result<XboxAuth, Error>)
    ensures
        match r {
            Ok(auth) => response.member_text("Token"@) == Some(auth.xbl_token@) && user_hash_of(
                *response,
            ) == Some(auth.xbl_uhs@),
            Err(e) => e matches Error::MicrosoftResponseMissingKey(what) && (if response.member_text(
                "Token"@,
            ) is None {
                what@ == "xbl Token"@
            } else {
                user_hash_of(*response) is None && what@ == "xui_uhs"@
            }),
        },
{
    let xbl_token = match required_text(response, "Token", "xbl Token") {
        Ok(text) => text,
        Err(e) => {
            return Err(e);
        },
    };
    let uhs = match response.get2("DisplayClaims", "xui") {
        Some(Json::Array(claims)) => if claims.len() > 0 {
            claims[0].get_str("uhs")
        } else {
            None
        },
        _ => None,
    };
    match uhs {
        Some(text) => Ok(XboxAuth { xbl_token, xbl_uhs: text.to_owned() }),
        None => Err(Error::MicrosoftResponseMissingKey("xui_uhs".to_owned())),
    }
}

/// Reads the XSTS token from the response of the XSTS authorisation.
pub fn read_xsts_response(response: &Json) -> (r: Result<String, Error>)
    ensures
        match r {
            Ok(text) => response.member_text("Token"@) == Some(text@),
            Err(e) => e matches Error::MicrosoftResponseMissingKey(what) && what@ == "Token"@
                && response.member_text("Token"@) is None,
        },
{
    required_text(response, "Token", "Token")
}

/// Reads the access token from the response of the Minecraft login.
pub fn read_minecraft_response(response: &Json) -> (r: Result<String, Error>)
    ensures
        match r {
            Ok(text) => response.member_text("access_token"@) == Some(text@),
            Err(e) => e matches Error::MicrosoftResponseMissingKey(what) && what@ == "access_token"@
                && response.member_text("access_token"@) is None,
        },
{
    required_text(response, "access_token", "access_token")
}

/// Whether the account owns the game: the entitlement endpoint answers
/// with a status in the 2xx range.
pub fn check_ownership(status: u16) -> (r: Result<(), Error>)
    ensures
        r is Ok <==> 200 <= status < 300,
        r matches Err(e) ==> e is OwnershipCheckFailed,
{
    if status >= 200 && status < 300 {
        Ok(())
    } else {
        Err(Error::OwnershipCheckFailed)
    }
}

/// A skin over plain values.
pub struct SkinSpec {
    pub id: Seq<char>,
    pub state: Seq<char>,
    pub texture_key: Seq<char>,
    pub url: Seq<char>,
    pub variant: Seq<char>,
}

/// A cape over plain values.
pub struct CapeSpec {
    pub alias: Seq<char>,
    pub id: Seq<char>,
    pub state: Seq<char>,
    pub url: Seq<char>,
}

impl View for Skin {
    type V = SkinSpec;

    open spec fn view(&self) -> SkinSpec {
        SkinSpec {
            id: self.id@,
            state: self.state@,
            texture_key: self.texture_key@,
            url: self.url@,
            variant: self.variant@,
        }
    }
}

impl View for Cape {
    type V = CapeSpec;

    open spec fn view(&self) -> CapeSpec {
        CapeSpec { alias: self.alias@, id: self.id@, state: self.state@, url: self.url@ }
    }
}

/// The skin that a JSON object describes: all five of its fields are
/// strings.
pub open spec fn skin_of(value: Json) -> Option<SkinSpec> {
    match (
        value.member_text("id"@),
        value.member_text("state"@),
        value.member_text("textureKey"@),
        value.member_text("url"@),
        value.member_text("variant"@),
    ) {
        (Some(id), Some(state), Some(texture_key), Some(url), Some(variant)) => Some(
            SkinSpec { id, state, texture_key, url, variant },
        ),
        _ => None,
    }
}

/// The cape that a JSON object describes: all four of its fields are
/// strings.
pub open spec fn cape_of(value: Json) -> Option<CapeSpec> {
    match (
        value.member_text("alias"@),
        value.member_text("id"@),
        value.member_text("state"@),
        value.member_text("url"@),
    ) {
        (Some(alias), Some(id), Some(state), Some(url)) => Some(
            CapeSpec { alias, id, state, url },
        ),
        _ => None,
    }
}

/// The skins that a JSON value lists: it is an array, and each element
/// describes a skin.
pub open spec fn skins_of(value: Option<Json>) -> Option<Seq<SkinSpec>> {
    match value {
        Some(Json::Array(items)) => if forall|i: int|
            0 <= i < items@.len() ==> skin_of(#[trigger] items@[i]) is Some {
            Some(Seq::new(items@.len(), |i: int| skin_of(items@[i])->0))
        } else {
            None
        },
        _ => None,
    }
}

/// The capes that a JSON value lists: it is an array, and each element
/// describes a cape.
pub open spec fn capes_of(value: Option<Json>) -> Option<Seq<CapeSpec>> {
    match value {
        Some(Json::Array(items)) => if forall|i: int|
            0 <= i < items@.len() ==> cape_of(#[trigger] items@[i]) is Some {
            Some(Seq::new(items@.len(), |i: int| cape_of(items@[i])->0))
        } else {
            None
        },
        _ => None,
    }
}

/// The plain values of a list of skins.
pub open spec fn skin_views(skins: Seq<Skin>) -> Seq<SkinSpec> {
    Seq::new(skins.len(), |i: int| skins[i]@)
}

/// The plain values of a list of capes.
pub open spec fn cape_views(capes: Seq<Cape>) -> Seq<CapeSpec> {
    Seq::new(capes.len(), |i: int| capes[i]@)
}

/// Reads one skin.
pub fn read_skin(value: &Json) -> (r: Option<Skin>)
    ensures
        match r {
            Some(skin) => skin_of(*value) == Some(skin@),
            None => skin_of(*value) is None,
        },
{
    let id = match value.get_str("id") {
        Some(text) => text.to_owned(),
        None => {
            return None;
        },
    };
    let state = match value.get_str("state") {
        Some(text) => text.to_owned(),
        None => {
            return None;
        },
    };
    let texture_key = match value.get_str("textureKey") {
        Some(text) => text.to_owned(),
        None => {
            return None;
        },
    };
    let url = match value.get_str("url") {
        Some(text) => text.to_owned(),
        None => {
            return None;
        },
    };
    let variant = match value.get_str("variant") {
        Some(text) => text.to_owned(),
        None => {
            return None;
        },
    };
    Some(Skin { id, state, texture_key, url, variant })
}

/// Reads one cape.
pub fn read_cape(value: &Json) -> (r: Option<Cape>)
    ensures
        match r {
            Some(cape) => cape_of(*value) == Some(cape@),
            None => cape_of(*value) is None,
        },
{
    let alias = match value.get_str("alias") {
        Some(text) => text.to_owned(),
        None => {
            return None;
        },
    };
    let id = match value.get_str("id") {
        Some(text) => text.to_owned(),
        None => {
            return None;
        },
    };
    let state = match value.get_str("state") {
        Some(text) => text.to_owned(),
        None => {
            return None;
        },
    };
    let url = match value.get_str("url") {
        Some(text) => text.to_owned(),
        None => {
            return None;
        },
    };
    Some(Cape { alias, id, state, url })
}

/// Reads a list of skins.
pub fn read_skins(value: Option<&Json>) -> (r: Option<Vec<Skin>>)
    ensures
        match r {
            Some(skins) => skins_of(
                match value {
                    Some(v) => Some(*v),
                    None => None,
                },
            ) == Some(skin_views(skins@)),
            None => skins_of(
                match value {
                    Some(v) => Some(*v),
                    None => None,
                },
            ) is None,
        },
{
    let items = match value {
        Some(Json::Array(items)) => items,
        _ => {
            return None;
        },
    };
    let mut out: Vec<Skin> = Vec::new();
    let mut i: usize = 0;
    while i < items.len()
        invariant
            i <= items.len(),
            out@.len() == i,
            value matches Some(v) && *v == Json::Array(*items),
            forall|j: int| 0 <= j < i ==> skin_of(#[trigger] items@[j]) == Some(out@[j]@),
        decreases items.len() - i,
    {
        match read_skin(&items[i]) {
            Some(skin) => {
                out.push(skin);
            },
            None => {
                proof {
                    assert(skin_of(items@[i as int]) is None);
                }
                return None;
            },
        }
        i += 1;
    }
    proof {
        assert(skin_views(out@) =~= Seq::new(items@.len(), |i: int| skin_of(items@[i])->0));
    }
    Some(out)
}

/// Reads a list of capes.
pub fn read_capes(value: Option<&Json>) -> (r: Option<Vec<Cape>>)
    ensures
        match r {
            Some(capes) => capes_of(
                match value {
                    Some(v) => Some(*v),
                    None => None,
                },
            ) == Some(cape_views(capes@)),
            None => capes_of(
                match value {
                    Some(v) => Some(*v),
                    None => None,
                },
            ) is None,
        },
{
    let items = match value {
        Some(Json::Array(items)) => items,
        _ => {
            return None;
        },
    };
    let mut out: Vec<Cape> = Vec::new();
    let mut i: usize = 0;
    while i < items.len()
        invariant
            i <= items.len(),
            out@.len() == i,
            value matches Some(v) && *v == Json::Array(*items),
            forall|j: int| 0 <= j < i ==> cape_of(#[trigger] items@[j]) == Some(out@[j]@),
        decreases items.len() - i,
    {
        match read_cape(&items[i]) {
            Some(cape) => {
                out.push(cape);
            },
            None => {
                proof {
                    assert(cape_of(items@[i as int]) is None);
                }
                return None;
            },
        }
        i += 1;
    }
    proof {
        assert(cape_views(out@) =~= Seq::new(items@.len(), |i: int| cape_of(items@[i])->0));
    }
    Some(out)
}

/// The identifier of a profile response: its `id` is a string that reads
/// as an identifier.
pub open spec fn profile_id_of(response: Json) -> Option<u128> {
    match response.member_text("id"@) {
        Some(text) => uuid_parse(text),
        None => None,
    }
}

/// The first part of a profile response that is missing or malformed.
pub open spec fn profile_gap(response: Json) -> Option<Seq<char>> {
    if response.member_text("name"@) is None {
        Some("name"@)
    } else if profile_id_of(response) is None {
        Some("id"@)
    } else if skins_of(response.member("skins"@)) is None {
        Some("skins"@)
    } else if capes_of(response.member("capes"@)) is None {
        Some("capes"@)
    } else {
        None
    }
}

/// Reads the game profile from the response of the profile endpoint.
pub fn read_profile(response: &Json) -> (r: Result<Profile, Error>)
    ensures
        match r {
            Ok(profile) => {
                &&& profile_gap(*response) is None
                &&& response.member_text("name"@) == Some(profile.profile_name@)
                &&& profile_id_of(*response) == Some(profile.uuid)
                &&& skins_of(response.member("skins"@)) == Some(skin_views(profile.skins@))
                &&& capes_of(response.member("capes"@)) == Some(cape_views(profile.capes@))
            },
            Err(e) => e matches Error::JsonParse(what) && profile_gap(*response) == Some(what@),
        },
{
    let profile_name = match response.get_str("name") {
        Some(text) => text.to_owned(),
        None => {
            return Err(Error::JsonParse("name".to_owned()));
        },
    };
    let uuid = match response.get_str("id") {
        Some(text) => match parse_uuid(text) {
            Some(id) => id,
            None => {
                return Err(Error::JsonParse("id".to_owned()));
            },
        },
        None => {
            return Err(Error::JsonParse("id".to_owned()));
        },
    };
    let skins = match read_skins(response.get("skins")) {
        Some(skins) => skins,
        None => {
            return Err(Error::JsonParse("skins".to_owned()));
        },
    };
    let capes = match read_capes(response.get("capes")) {
        Some(capes) => capes,
        None => {
            return Err(Error::JsonParse("capes".to_owned()));
        },
    };
    Ok(Profile { profile_name, uuid, skins, capes })
}

/// The largest picture that is written into a profile, in bytes.
pub open spec fn max_inline_len() -> int {
    usize::MAX as int / 2
}

/// The address of a skin after the attempt to fetch its picture: the picture
/// itself as a `data:` URL where it was fetched, else the address as it
/// was.
pub open spec fn inlined(url: Seq<char>, content: Option<Seq<u8>>) -> Seq<char> {
    match content {
        Some(data) => if data.len() <= max_inline_len() {
            "data:image/png;base64,"@ + base64_no_pad(data)
        } else {
            url
        },
        None => url,
    }
}

/// The address of a skin with its picture written into it, the base64 text
/// of the picture handed in.
pub fn data_url(encoded: &str) -> (r: String)
    ensures
        r@ == "data:image/png;base64,"@ + encoded@,
{
    let mut out: Vec<char> = Vec::new();
    push_str(&mut out, "data:image/png;base64,");
    push_str(&mut out, encoded);
    string_of(&out)
}

/// The skin with its picture written into its address, where the picture
/// could be fetched. Nothing else of the skin changes.
pub fn resolve_skin(skin: Skin, content: Option<&[u8]>) -> (r: Skin)
    ensures
        r.url@ == inlined(
            skin.url@,
            match content {
                Some(data) => Some(data@),
                None => None,
            },
        ),
        r == (Skin { url: r.url, ..skin }),
{
    let mut skin = skin;
    if let Some(data) = content {
        if data.len() <= usize::MAX / 2 {
            let encoded = base64_encode(data);
            skin.url = data_url(encoded.as_str());
        }
    }
    skin
}

/// The stored account with the identifier `uuid`.
pub fn get_account(accounts: &Vec<MicrosoftAccount>, uuid: u128) -> (r: Result<
    &MicrosoftAccount,
    Error,
>)
    ensures
        match r {
            Ok(account) => first_with(accounts@, uuid) == Some(*account),
            Err(e) => absent(accounts@, uuid) && e == Error::AccountNotfound(uuid),
        },
{
    match find_by_id(accounts, uuid) {
        Some(account) => Ok(account),
        None => Err(Error::AccountNotfound(uuid)),
    }
}

/// Takes the account with the identifier `uuid` out of the store.
pub fn delete_account(accounts: &mut Vec<MicrosoftAccount>, uuid: u128)
    ensures
        final(accounts)@ == without(old(accounts)@, uuid),
{
    remove_by_id(accounts, uuid);
}

/// Stores an account that has just logged in: it takes the place of a
/// stored account with the same profile, and stands at the end.
pub fn add_account(accounts: &mut Vec<MicrosoftAccount>, account: MicrosoftAccount)
    ensures
        final(accounts)@ == without(old(accounts)@, account.profile.uuid).push(account),
{
    remove_by_id(accounts, account.profile.uuid);
    accounts.push(account);
}

/// The position of the first account with the identifier `uuid`.
pub fn position_of_account(accounts: &Vec<MicrosoftAccount>, uuid: u128) -> (r: Option<usize>)
    ensures
        match r {
            Some(p) => p < accounts@.len() && accounts@[p as int].profile.uuid == uuid
                && forall|j: int| 0 <= j < p ==> (#[trigger] accounts@[j]).profile.uuid != uuid,
            None => absent(accounts@, uuid),
        },
{
    let mut i: usize = 0;
    while i < accounts.len()
        invariant
            i <= accounts.len(),
            forall|j: int| 0 <= j < i ==> (#[trigger] accounts@[j]).profile.uuid != uuid,
        decreases accounts.len() - i,
    {
        if accounts[i].profile.uuid == uuid {
            return Some(i);
        }
        i += 1;
    }
    None
}

/// The store after `account` has logged in again as the account `uuid`.
/// Where the login came back with another profile, the old account is
/// taken out and the new one stored at the end. Where it is the same
/// profile, the new account stands in place of the old one, and a store
/// that does not hold the account stays as it is.
pub open spec fn after_relogin(
    accounts: Seq<MicrosoftAccount>,
    uuid: u128,
    account: MicrosoftAccount,
) -> Seq<MicrosoftAccount> {
    if uuid != account.profile.uuid {
        without(without(accounts, uuid), account.profile.uuid).push(account)
    } else if exists|p: int| first_at(accounts, uuid, p) {
        accounts.update(choose|p: int| first_at(accounts, uuid, p), account)
    } else {
        accounts
    }
}

/// `p` is the position of the first account with the identifier `uuid`.
pub open spec fn first_at(accounts: Seq<MicrosoftAccount>, uuid: u128, p: int) -> bool {
    &&& 0 <= p < accounts.len()
    &&& accounts[p].profile.uuid == uuid
    &&& forall|j: int| 0 <= j < p ==> (#[trigger] accounts[j]).profile.uuid != uuid
}

/// Stores the outcome of a new login for the account `uuid`.
pub fn relogin_account(accounts: &mut Vec<MicrosoftAccount>, uuid: u128, account: MicrosoftAccount)
    ensures
        final(accounts)@ == after_relogin(old(accounts)@, uuid, account),
{
    if uuid != account.profile.uuid {
        remove_by_id(accounts, uuid);
        add_account(accounts, account);
        return ;
    }
    let ghost before = accounts@;
    match position_of_account(accounts, uuid) {
        Some(p) => {
            proof {
                assert(first_at(before, uuid, p as int));
                let q = choose|q: int| first_at(before, uuid, q);
                assert(first_at(before, uuid, q));
                assert(q == p) by {
                    if q < p {
                        assert(before[q].profile.uuid != uuid);
                    } else if p < q {
                        assert(before[p as int].profile.uuid != uuid);
                    }
                }
            }
            accounts.set(p, account);
        },
        None => {
            proof {
                assert forall|q: int| !first_at(before, uuid, q) by {
                    if 0 <= q < before.len() {
                        assert(before[q].profile.uuid != uuid);
                    }
                }
            }
        },
    }
}

/// Stores the refreshed tokens of an account: the refreshed account stands
/// in place of the stored one with its profile.
pub fn refresh_account(accounts: &mut Vec<MicrosoftAccount>, refreshed: MicrosoftAccount)
    ensures
        final(accounts)@ == after_relogin(old(accounts)@, refreshed.profile.uuid, refreshed),
{
    let uuid = refreshed.profile.uuid;
    relogin_account(accounts, uuid, refreshed);
}

/// The account that a finished login has come to.
pub fn finish_login(tokens: TokenResponse, minecraft_access_token: String, profile: Profile, now: u64) -> (r:
    MicrosoftAccount)
    ensures
        r.refresh_token == tokens.refresh_token,
        r.access_token == minecraft_access_token,
        r.profile == profile,
        r.expires_on as int == (if now + tokens.expires_in > u64::MAX {
            u64::MAX as int
        } else {
            now + tokens.expires_in
        }),
{
    MicrosoftAccount {
        refresh_token: tokens.refresh_token,
        access_token: minecraft_access_token,
        expires_on: expiry(now, tokens.expires_in),
        profile,
    }
}

/// How far a login has come.
#[derive(Debug)]
pub enum LoginStage {
    /// Nothing has been asked yet.
    Start(LoginPayload),
    /// Microsoft has handed out its tokens.
    Tokens(TokenResponse),
    /// Xbox Live has accepted the Microsoft token.
    Xbox(TokenResponse, XboxAuth),
    /// The Xbox Live token is authorised for Minecraft; the XSTS token is
    /// the last part.
    Xsts(TokenResponse, XboxAuth, String),
    /// Minecraft has handed out its access token, the last part.
    Minecraft(TokenResponse, String),
    /// The account owns the game.
    Owned(TokenResponse, String),
    /// The login is complete.
    Finished(MicrosoftAccount),
}

/// A request of the login chain.
#[derive(Debug)]
pub enum LoginRequest {
    /// A form is posted.
    Form { url: String, form: String },
    /// The Xbox Live login is posted as JSON.
    Xbox { url: String, xbox: XboxAuthBody },
    /// The XSTS authorisation is posted as JSON.
    Xsts { url: String, xsts: XSTSAuthBody },
    /// The Minecraft login is posted as JSON.
    Minecraft { url: String, login: MinecraftAuthBody },
    /// A document is fetched with an `Authorization` header.
    Get { url: String, authorization: String },
}

/// `body` is the Xbox Live login with the given Microsoft token.
pub open spec fn is_xbox_body(body: XboxAuthBody, access_token: Seq<char>) -> bool {
    &&& body.properties.auth_method@ == "RPS"@
    &&& body.properties.site_name@ == "user.auth.xboxlive.com"@
    &&& body.properties.rps_ticket@ == access_token
    &&& body.relying_party@ == "http://auth.xboxlive.com"@
    &&& body.token_type@ == "JWT"@
}

/// `body` is the XSTS authorisation of the given Xbox Live token.
pub open spec fn is_xsts_body(body: XSTSAuthBody, xbl_token: Seq<char>) -> bool {
    &&& body.properties.sandbox_id@ == "RETAIL"@
    &&& body.properties.user_tokens@.len() == 1
    &&& body.properties.user_tokens@[0]@ == xbl_token
    &&& body.relying_party@ == "rp://api.minecraftservices.com/"@
    &&& body.token_type@ == "JWT"@
}

/// The request that a stage of the login sends next: the six requests
/// follow one another, each built from what the one before has yielded. A
/// finished login sends nothing.
pub fn next_request(stage: &LoginStage) -> (r: Option<LoginRequest>)
    ensures
        match *stage {
            LoginStage::Start(payload) => r matches Some(LoginRequest::Form { url, form }) && url@
                == "https://login.live.com/oauth20_token.srf"@ && form@ == token_request_of(
                payload,
            ),
            LoginStage::Tokens(tokens) => r matches Some(LoginRequest::Xbox { url, xbox }) && url@
                == "https://user.auth.xboxlive.com/user/authenticate"@ && is_xbox_body(
                xbox,
                tokens.access_token@,
            ),
            LoginStage::Xbox(_, auth) => r matches Some(LoginRequest::Xsts { url, xsts }) && url@
                == "https://xsts.auth.xboxlive.com/xsts/authorize"@ && is_xsts_body(
                xsts,
                auth.xbl_token@,
            ),
            LoginStage::Xsts(_, auth, token) => r matches Some(
                LoginRequest::Minecraft { url, login },
            ) && url@ == "https://api.minecraftservices.com/authentication/login_with_xbox"@
                && login.identity_token@ == "XBL3.0 x="@ + auth.xbl_uhs@ + "; "@ + token@,
            LoginStage::Minecraft(_, token) => r matches Some(
                LoginRequest::Get { url, authorization },
            ) && url@ == "https://api.minecraftservices.com/entitlements/mcstore"@
                && authorization@ == "Bearer "@ + token@,
            LoginStage::Owned(_, token) => r matches Some(
                LoginRequest::Get { url, authorization },
            ) && url@ == "https://api.minecraftservices.com/minecraft/profile"@ && authorization@
                == "Bearer "@ + token@,
            LoginStage::Finished(_) => r is None,
        },
{
    match stage {
        LoginStage::Start(payload) => Some(
            LoginRequest::Form {
                url: token_endpoint().to_owned(),
                form: token_request_body(payload),
            },
        ),
        LoginStage::Tokens(tokens) => Some(
            LoginRequest::Xbox {
                url: xbox_endpoint().to_owned(),
                xbox: XboxAuthBody::new(tokens.access_token.as_str()),
            },
        ),
        LoginStage::Xbox(_, xbox) => Some(
            LoginRequest::Xsts {
                url: xsts_endpoint().to_owned(),
                xsts: XSTSAuthBody::new(xbox.xbl_token.as_str()),
            },
        ),
        LoginStage::Xsts(_, xbox, xsts) => Some(
            LoginRequest::Minecraft {
                url: minecraft_login_endpoint().to_owned(),
                login: MinecraftAuthBody::new(xbox.xbl_uhs.as_str(), xsts.as_str()),
            },
        ),
        LoginStage::Minecraft(_, token) => Some(
            LoginRequest::Get {
                url: ownership_endpoint().to_owned(),
                authorization: bearer(token.as_str()),
            },
        ),
        LoginStage::Owned(_, token) => Some(
            LoginRequest::Get {
                url: profile_endpoint().to_owned(),
                authorization: bearer(token.as_str()),
            },
        ),
        LoginStage::Finished(_) => None,
    }
}

/// Takes a login one stage further with the answer to its last request.
/// `status` is the status of the answer, `response` its body, and `now` the
/// time in seconds since the epoch. Each stage fails with the error of the
/// part that its answer lacks; the ownership stage fails unless the
/// status is in the 2xx range. The last stage yields the account, whose
/// token expires `expires_in` seconds from `now`.
pub fn microsoft_login(stage: LoginStage, status: u16, response: &Json, now: u64) -> (r: Result<
    LoginStage,
    Error,
>)
    ensures
        match stage {
            LoginStage::Start(_) => match r {
                Ok(next) => next matches LoginStage::Tokens(tokens) && token_response_gap(
                    *response,
                ) is None && response.member_text("access_token"@) == Some(tokens.access_token@)
                    && response.member_u64("expires_in"@) == Some(tokens.expires_in)
                    && response.member_text("refresh_token"@) == Some(tokens.refresh_token@),
                Err(e) => e matches Error::MicrosoftResponseMissingKey(what)
                    && token_response_gap(*response) == Some(what@),
            },
            LoginStage::Tokens(tokens) => match r {
                Ok(next) => next matches LoginStage::Xbox(kept, xbox) && kept == tokens
                    && response.member_text("Token"@) == Some(xbox.xbl_token@) && user_hash_of(
                    *response,
                ) == Some(xbox.xbl_uhs@),
                Err(e) => e is MicrosoftResponseMissingKey && (response.member_text("Token"@)
                    is None || user_hash_of(*response) is None),
            },
            LoginStage::Xbox(tokens, xbox) => match r {
                Ok(next) => next matches LoginStage::Xsts(kept, same, xsts) && kept == tokens
                    && same == xbox && response.member_text("Token"@) == Some(xsts@),
                Err(e) => e is MicrosoftResponseMissingKey && response.member_text("Token"@)
                    is None,
            },
            LoginStage::Xsts(tokens, _, _) => match r {
                Ok(next) => next matches LoginStage::Minecraft(kept, token) && kept == tokens
                    && response.member_text("access_token"@) == Some(token@),
                Err(e) => e is MicrosoftResponseMissingKey && response.member_text(
                    "access_token"@,
                ) is None,
            },
            LoginStage::Minecraft(tokens, token) => match r {
                Ok(next) => next == LoginStage::Owned(tokens, token) && 200 <= status < 300,
                Err(e) => e is OwnershipCheckFailed && !(200 <= status < 300),
            },
            LoginStage::Owned(tokens, token) => match r {
                Ok(next) => next matches LoginStage::Finished(account) && profile_gap(*response)
                    is None && account.refresh_token == tokens.refresh_token
                    && account.access_token == token && account.expires_on as int == (if now
                    + tokens.expires_in > u64::MAX {
                    u64::MAX as int
                } else {
                    now + tokens.expires_in
                }) && response.member_text("name"@) == Some(account.profile.profile_name@)
                    && profile_id_of(*response) == Some(account.profile.uuid) && skins_of(
                    response.member("skins"@),
                ) == Some(skin_views(account.profile.skins@)) && capes_of(
                    response.member("capes"@),
                ) == Some(cape_views(account.profile.capes@)),
                Err(e) => e matches Error::JsonParse(what) && profile_gap(*response) == Some(
                    what@,
                ),
            },
            LoginStage::Finished(account) => r == Ok::<LoginStage, Error>(
                LoginStage::Finished(account),
            ),
        },
{
    match stage {
        LoginStage::Start(_) => match read_token_response(response) {
            Ok(tokens) => Ok(LoginStage::Tokens(tokens)),
            Err(e) => Err(e),
        },
        LoginStage::Tokens(tokens) => match read_xbox_response(response) {
            Ok(xbox) => Ok(LoginStage::Xbox(tokens, xbox)),
            Err(e) => Err(e),
        },
        LoginStage::Xbox(tokens, xbox) => match read_xsts_response(response) {
            Ok(xsts) => Ok(LoginStage::Xsts(tokens, xbox, xsts)),
            Err(e) => Err(e),
        },
        LoginStage::Xsts(tokens, _, _) => match read_minecraft_response(response) {
            Ok(token) => Ok(LoginStage::Minecraft(tokens, token)),
            Err(e) => Err(e),
        },
        LoginStage::Minecraft(tokens, token) => match check_ownership(status) {
            Ok(()) => Ok(LoginStage::Owned(tokens, token)),
            Err(e) => Err(e),
        },
        LoginStage::Owned(tokens, token) => match read_profile(response) {
            Ok(profile) => Ok(LoginStage::Finished(finish_login(tokens, token, profile, now))),
            Err(e) => Err(e),
        },
        LoginStage::Finished(account) => Ok(LoginStage::Finished(account)),
    }
}

} // verus!
