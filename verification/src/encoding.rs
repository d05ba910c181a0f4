//! Credential requests and their form-encoded bodies.
//!
//! A request is one of three grants. The grant type and the client identifier
//! that go out with it follow from the grant alone, so a caller can never pair
//! an administrative grant type with an end user's parameters.

use std::collections::BTreeMap;
use vstd::prelude::*;
use vstd::string::*;

verus! {

/// The client identifier every administrative grant goes out under.
pub const ADMIN_CLI_CLIENT_ID: &'static str = "admin-cli";

/// The content type of every encoded credential request.
pub const FORM_CONTENT_TYPE: &'static str = "application/x-www-form-urlencoded";

/// A grant that trades a refresh token for a new access token.
#[derive(Debug, PartialEq, Eq)]
pub struct RefreshTokenRequestData {
    pub refresh_token: String,
}

/// A grant on an end user's name and password.
#[derive(Debug, PartialEq, Eq)]
pub struct PasswordTokenRequestData {
    pub username: String,
    pub password: String,
}

/// The gateway's own grant, on the administrative client's secret.
#[derive(Debug, PartialEq, Eq)]
pub struct AdminTokenRequestData {
    pub client_secret: String,
}

/// A credential request: exactly one of the three grants.
#[derive(Debug, PartialEq, Eq)]
pub enum TokenRequestData {
    RefreshToken(RefreshTokenRequestData),
    Password(PasswordTokenRequestData),
    Admin(AdminTokenRequestData),
}

/// What goes out with a grant besides its own fields.
#[derive(Debug, PartialEq, Eq)]
pub struct TokenRequestMeta {
    pub grant_type: String,
    pub client_id: String,
}

/// A grant together with the metadata derived from it.
#[derive(Debug, PartialEq, Eq)]
pub struct TokenRequest {
    data: TokenRequestData,
    meta: TokenRequestMeta,
}

impl Clone for RefreshTokenRequestData {
    fn clone(&self) -> (r: Self)
        ensures
            r == *self,
    {
        RefreshTokenRequestData { refresh_token: self.refresh_token.clone() }
    }
}

impl Clone for PasswordTokenRequestData {
    fn clone(&self) -> (r: Self)
        ensures
            r == *self,
    {
        PasswordTokenRequestData {
            username: self.username.clone(),
            password: self.password.clone(),
        }
    }
}

impl Clone for AdminTokenRequestData {
    fn clone(&self) -> (r: Self)
        ensures
            r == *self,
    {
        AdminTokenRequestData { client_secret: self.client_secret.clone() }
    }
}

impl Clone for TokenRequestData {
    fn clone(&self) -> (r: Self)
        ensures
            r == *self,
    {
        match self {
            TokenRequestData::RefreshToken(data) => TokenRequestData::RefreshToken(data.clone()),
            TokenRequestData::Password(data) => TokenRequestData::Password(data.clone()),
            TokenRequestData::Admin(data) => TokenRequestData::Admin(data.clone()),
        }
    }
}

impl Clone for TokenRequestMeta {
    fn clone(&self) -> (r: Self)
        ensures
            r == *self,
    {
        TokenRequestMeta { grant_type: self.grant_type.clone(), client_id: self.client_id.clone() }
    }
}

impl Clone for TokenRequest {
    fn clone(&self) -> (r: Self)
        ensures
            r == *self,
    {
        proof {
            use_type_invariant(self);
        }
        TokenRequest { data: self.data.clone(), meta: self.meta.clone() }
    }
}

/// The mathematical content of a [`TokenRequestData`].
pub enum GrantView {
    RefreshToken { refresh_token: Seq<char> },
    Password { username: Seq<char>, password: Seq<char> },
    Admin { client_secret: Seq<char> },
}

/// The mathematical content of a [`TokenRequestMeta`].
pub struct MetaView {
    pub grant_type: Seq<char>,
    pub client_id: Seq<char>,
}

/// The mathematical content of a [`TokenRequest`].
pub struct RequestView {
    pub data: GrantView,
    pub meta: MetaView,
}

/// The text `key=value` that the query-string serializer writes for one string
/// field, with both sides escaped as that serializer escapes them.
pub uninterp spec fn form_pair(key: Seq<char>, value: Seq<char>) -> Seq<char>;

/// Two encoded parts with the separator `&` between them.
pub open spec fn joined(head: Seq<char>, tail: Seq<char>) -> Seq<char> {
    head + "&"@ + tail
}

impl GrantView {
    /// The grant type that the provider expects for this grant.
    pub open spec fn grant_type(self) -> Seq<char> {
        match self {
            GrantView::RefreshToken { .. } => "refresh_token"@,
            GrantView::Password { .. } => "password"@,
            GrantView::Admin { .. } => "client_credentials"@,
        }
    }

    /// The client identifier this grant goes out under, where `configured` is
    /// the gateway's own identifier.
    pub open spec fn client_id(self, configured: Seq<char>) -> Seq<char> {
        match self {
            GrantView::Admin { .. } => ADMIN_CLI_CLIENT_ID@,
            _ => configured,
        }
    }

    /// The metadata derived from this grant.
    pub open spec fn meta(self, configured: Seq<char>) -> MetaView {
        MetaView { grant_type: self.grant_type(), client_id: self.client_id(configured) }
    }

    /// The grant's own fields, encoded in declaration order.
    pub open spec fn form(self) -> Seq<char> {
        match self {
            GrantView::RefreshToken { refresh_token } => form_pair(
                "refresh_token"@,
                refresh_token,
            ),
            GrantView::Password { username, password } => joined(
                form_pair("username"@, username),
                form_pair("password"@, password),
            ),
            GrantView::Admin { client_secret } => form_pair("client_secret"@, client_secret),
        }
    }
}

impl MetaView {
    /// The metadata fields, encoded in declaration order.
    pub open spec fn form(self) -> Seq<char> {
        joined(form_pair("grant_type"@, self.grant_type), form_pair("client_id"@, self.client_id))
    }
}

impl RequestView {
    /// The whole request body: the grant's fields, then the metadata.
    pub open spec fn form(self) -> Seq<char> {
        joined(self.data.form(), self.meta.form())
    }

    /// The metadata is the one derived from the grant, for some configured
    /// client identifier.
    pub open spec fn derived(self) -> bool {
        self.meta == self.data.meta(self.meta.client_id)
    }
}

impl View for TokenRequestData {
    type V = GrantView;

    open spec fn view(&self) -> GrantView {
        match self {
            TokenRequestData::RefreshToken(d) => GrantView::RefreshToken {
                refresh_token: d.refresh_token@,
            },
            TokenRequestData::Password(d) => GrantView::Password {
                username: d.username@,
                password: d.password@,
            },
            TokenRequestData::Admin(d) => GrantView::Admin { client_secret: d.client_secret@ },
        }
    }
}

impl View for TokenRequestMeta {
    type V = MetaView;

    open spec fn view(&self) -> MetaView {
        MetaView { grant_type: self.grant_type@, client_id: self.client_id@ }
    }
}

impl View for TokenRequest {
    type V = RequestView;

    closed spec fn view(&self) -> RequestView {
        RequestView { data: self.data@, meta: self.meta@ }
    }
}

/// The error type of `serde_qs`, carried through and never looked into.
#[verifier::external_type_specification]
#[verifier::external_body]
pub struct ExQueryStringError(serde_qs::Error);

/// Calls `serde_qs::to_string` on a map that holds the one entry `key` to
/// `value`. Trusted, of that call: it returns `Ok`, and the text is the one
/// that [`form_pair`] names. It cannot fail here because the serializer takes
/// a string key and a string value as they are, writes them percent-encoded,
/// hence as ASCII, into a byte vector, and only then checks the bytes for
/// UTF-8.
#[verifier::external_body]
fn encode_pair(key: &str, value: &str) -> (r: Result<String, serde_qs::Error>)
    ensures
        r is Ok,
        r->Ok_0@ == form_pair(key@, value@),
{
    let mut entry: BTreeMap<&str, &str> = BTreeMap::new();
    entry.insert(key, value);
    serde_qs::to_string(&entry)
}

/// One string field as `key=value`, escaped for a form body.
fn encoded_field(key: &str, value: &str) -> (r: String)
    ensures
        r@ == form_pair(key@, value@),
{
    encode_pair(key, value).unwrap()
}

/// Joins two encoded parts with `&`.
pub fn join_encoded(head: String, tail: &str) -> (r: String)
    ensures
        r@ == joined(head@, tail@),
{
    let mut out = head;
    out.append("&");
    out.append(tail);
    out
}

impl TokenRequestData {
    /// The grant's own fields as URL-encoded pairs, in declaration order.
    pub fn to_flattened_url_string(&self) -> (r: String)
        ensures
            r@ == self@.form(),
    {
        match self {
            TokenRequestData::RefreshToken(data) => encoded_field(
                "refresh_token",
                data.refresh_token.as_str(),
            ),
            TokenRequestData::Password(data) => {
                let username = encoded_field("username", data.username.as_str());
                let password = encoded_field("password", data.password.as_str());
                join_encoded(username, password.as_str())
            },
            TokenRequestData::Admin(data) => encoded_field(
                "client_secret",
                data.client_secret.as_str(),
            ),
        }
    }
}

impl TokenRequestMeta {
    /// Derives the metadata of a grant. `client_id` is the gateway's own
    /// client identifier; the administrative grant never goes out under it.
    pub fn from_data(data: &TokenRequestData, client_id: &str) -> (r: TokenRequestMeta)
        ensures
            r@ == data@.meta(client_id@),
    {
        match data {
            TokenRequestData::RefreshToken(_) => TokenRequestMeta {
                grant_type: String::from_str("refresh_token"),
                client_id: String::from_str(client_id),
            },
            TokenRequestData::Password(_) => TokenRequestMeta {
                grant_type: String::from_str("password"),
                client_id: String::from_str(client_id),
            },
            TokenRequestData::Admin(_) => TokenRequestMeta {
                grant_type: String::from_str("client_credentials"),
                client_id: String::from_str(ADMIN_CLI_CLIENT_ID),
            },
        }
    }

    /// The metadata fields as URL-encoded pairs, in declaration order.
    pub fn to_flattened_url_string(&self) -> (r: String)
        ensures
            r@ == self@.form(),
    {
        let grant_type = encoded_field("grant_type", self.grant_type.as_str());
        let client_id = encoded_field("client_id", self.client_id.as_str());
        join_encoded(grant_type, client_id.as_str())
    }
}

impl TokenRequest {
    #[verifier::type_invariant]
    spec fn meta_is_derived(self) -> bool {
        self@.derived()
    }

    /// Builds the request for a grant, deriving its metadata. `client_id` is
    /// the gateway's own client identifier.
    pub fn from_data(data: TokenRequestData, client_id: &str) -> (r: TokenRequest)
        ensures
            r@.data == data@,
            r@.meta == data@.meta(client_id@),
    {
        let meta = TokenRequestMeta::from_data(&data, client_id);
        TokenRequest { data, meta }
    }

    /// The grant of this request.
    pub fn data(&self) -> (r: &TokenRequestData)
        ensures
            r@ == self@.data,
    {
        &self.data
    }

    /// The metadata of this request: always the one derived from its grant.
    pub fn meta(&self) -> (r: &TokenRequestMeta)
        ensures
            r@ == self@.meta,
            self@.derived(),
    {
        proof {
            use_type_invariant(self);
        }
        &self.meta
    }

    /// The request body: the grant's fields, then `&`, then the metadata.
    pub fn to_flattened_url_string(&self) -> (r: String)
        ensures
            r@ == self@.form(),
            self@.derived(),
    {
        proof {
            use_type_invariant(self);
        }
        let data = self.data.to_flattened_url_string();
        let meta = self.meta.to_flattened_url_string();
        join_encoded(data, meta.as_str())
    }
}

/// An encoded credential request, ready to be posted.
#[derive(Debug, PartialEq, Eq)]
pub struct EncodedRequest {
    pub body: String,
    pub content_type: String,
}

impl Clone for EncodedRequest {
    fn clone(&self) -> (r: Self)
        ensures
            r == *self,
    {
        EncodedRequest { body: self.body.clone(), content_type: self.content_type.clone() }
    }
}

/// Encodes a credential request as a form body with its content type.
/// Encoding cannot fail.
pub fn encode(request: &TokenRequest) -> (r: EncodedRequest)
    ensures
        r.body@ == request@.form(),
        r.content_type@ == FORM_CONTENT_TYPE@,
        request@.derived(),
{
    EncodedRequest {
        body: request.to_flattened_url_string(),
        content_type: String::from_str(FORM_CONTENT_TYPE),
    }
}

/// The metadata that goes out follows from the grant alone: the administrative
/// grant is a `client_credentials` grant under the administrative client,
/// whatever the gateway's own identifier is; an end user's grant carries its
/// own grant type and the gateway's identifier.
pub proof fn lemma_metadata_follows_grant(data: GrantView, configured: Seq<char>)
    ensures
        data is Admin ==> data.meta(configured) == (MetaView {
            grant_type: "client_credentials"@,
            client_id: ADMIN_CLI_CLIENT_ID@,
        }),
        data is Password ==> data.meta(configured) == (MetaView {
            grant_type: "password"@,
            client_id: configured,
        }),
        data is RefreshToken ==> data.meta(configured) == (MetaView {
            grant_type: "refresh_token"@,
            client_id: configured,
        }),
{
}

/// The body of a password grant holds exactly four pairs: the user's name and
/// password, the grant type `password` and the gateway's identifier.
pub proof fn lemma_password_body(username: Seq<char>, password: Seq<char>, configured: Seq<char>)
    ensures
        ({
            let data = GrantView::Password { username, password };
            RequestView { data, meta: data.meta(configured) }.form()
        }) == form_pair("username"@, username) + "&"@ + form_pair("password"@, password) + "&"@
            + form_pair("grant_type"@, "password"@) + "&"@ + form_pair("client_id"@, configured),
{
}

/// The body of an administrative grant holds exactly three pairs: the secret,
/// the grant type `client_credentials` and the administrative client.
pub proof fn lemma_admin_body(client_secret: Seq<char>, configured: Seq<char>)
    ensures
        ({
            let data = GrantView::Admin { client_secret };
            RequestView { data, meta: data.meta(configured) }.form()
        }) == form_pair("client_secret"@, client_secret) + "&"@ + form_pair(
            "grant_type"@,
            "client_credentials"@,
        ) + "&"@ + form_pair("client_id"@, ADMIN_CLI_CLIENT_ID@),
{
}

} // verus!
