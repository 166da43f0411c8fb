//! The GitHub OAuth device flow: the requests it sends and how it reads the replies.
use vstd::prelude::*;

verus! {

/// Errors of the device flow.
///
/// An error of the HTTP client is carried as its rendered message.
#[derive(Debug, Clone, PartialEq, Eq)]
pub enum GithubDeviceOAuthError {
    RequestError(String),
    FieldNotFoundError(String),
    ResponseError(String),
    MaxAttemptsError,
    ExpiredAccessTokenError,
}

/// Credentials handed out by GitHub: issued at `timestamp` (UNIX seconds), valid for
/// `expires_in` seconds.
#[derive(Debug, Clone, PartialEq, Eq)]
pub struct Credentials {
    pub access_token: String,
    pub refresh_token: String,
    pub expires_in: u64,
    pub timestamp: u64,
}

impl Credentials {
    /// A copy of these credentials.
    pub fn duplicate(&self) -> (c: Self)
        ensures
            c == *self,
    {
        Credentials {
            access_token: self.access_token.clone(),
            refresh_token: self.refresh_token.clone(),
            expires_in: self.expires_in,
            timestamp: self.timestamp,
        }
    }
}

/// A JSON object as the device flow reads it: each field name with the JSON text of its
/// value (a string value keeps its quotes).
pub struct JsonResponse {
    fields: Vec<(String, String)>,
}

impl JsonResponse {
    #[verifier::type_invariant]
    closed spec fn keys_unique(self) -> bool {
        forall|i: int, j: int|
            0 <= i < j < self.fields.len() ==> #[trigger] self.fields[i].0@
                != #[trigger] self.fields[j].0@
    }

    closed spec fn has_key_at(self, k: Seq<char>, i: int) -> bool {
        0 <= i < self.fields.len() && self.fields[i].0@ == k
    }

    /// The fields, by name.
    pub closed spec fn fields_map(self) -> Map<Seq<char>, Seq<char>> {
        Map::new(
            |k: Seq<char>| exists|i: int| self.has_key_at(k, i),
            |k: Seq<char>| self.fields[choose|i: int| self.has_key_at(k, i)].1@,
        )
    }

    proof fn lemma_lookup(self, i: int)
        requires
            self.keys_unique(),
            0 <= i < self.fields.len(),
        ensures
            self.fields_map().contains_key(self.fields[i].0@),
            self.fields_map()[self.fields[i].0@] == self.fields[i].1@,
    {
        let k = self.fields[i].0@;
        assert(self.has_key_at(k, i));
        let j = choose|j: int| self.has_key_at(k, j);
        if i != j {
            if i < j {
                assert(self.fields[i].0@ != self.fields[j].0@);
            } else {
                assert(self.fields[j].0@ != self.fields[i].0@);
            }
        }
    }

    /// An object without fields.
    pub fn new() -> (r: Self)
        ensures
            r@ == Map::<Seq<char>, Seq<char>>::empty(),
    {
        let r = JsonResponse { fields: Vec::new() };
        assert(r@ =~= Map::<Seq<char>, Seq<char>>::empty());
        r
    }

    fn position(&self, key: &str) -> (r: Option<usize>)
        ensures
            r matches Some(i) ==> i < self.fields.len() && self.fields[i as int].0@ == key@,
            r is None ==> forall|i: int|
                0 <= i < self.fields.len() ==> #[trigger] self.fields[i].0@ != key@,
    {
        Self::position_in(&self.fields, key)
    }

    /// Sets the field `key` to `value`, replacing an earlier value of that field.
    pub fn insert(&mut self, key: String, value: String)
        ensures
            final(self)@ == old(self)@.insert(key@, value@),
    {
        proof {
            use_type_invariant(&*self);
        }
        let ghost before = *self;
        let mut fields: Vec<(String, String)> = Vec::new();
        std::mem::swap(&mut fields, &mut self.fields);
        // `removed` is the index of the earlier entry for `key`, or the length when there is none
        let ghost removed: int;
        match Self::position_in(&fields, key.as_str()) {
            Some(i) => {
                fields.remove(i);
                proof {
                    removed = i as int;
                }
            },
            None => {
                proof {
                    removed = before.fields.len() as int;
                }
            },
        }
        let ghost kept = fields@;
        proof {
            assert forall|a: int| 0 <= a < kept.len() implies #[trigger] kept[a] == before.fields[Self::source_index(a, removed)] by {}
            assert forall|a: int, b: int| 0 <= a < b < kept.len() implies #[trigger] kept[a].0@
                != #[trigger] kept[b].0@ by {
                assert(kept[a] == before.fields[Self::source_index(a, removed)]);
                assert(kept[b] == before.fields[Self::source_index(b, removed)]);
            }
            assert forall|a: int| 0 <= a < kept.len() implies #[trigger] kept[a].0@ != key@ by {
                let b = Self::source_index(a, removed);
                assert(kept[a] == before.fields[b]);
                if removed < before.fields.len() {
                    if b < removed {
                        assert(before.fields[b].0@ != before.fields[removed].0@);
                    } else {
                        assert(before.fields[removed].0@ != before.fields[b].0@);
                    }
                }
            }
        }
        fields.push((key, value));
        self.fields = fields;
        proof {
            let after = *self;
            let last = kept.len() as int;
            assert(after.fields[last].0@ == key@);
            after.lemma_lookup(last);
            assert forall|k: Seq<char>| #[trigger] after@.contains_key(k) implies before@.insert(
                key@,
                value@,
            ).contains_key(k) && after@[k] == before@.insert(key@, value@)[k] by {
                let a = choose|a: int| after.has_key_at(k, a);
                if a < last {
                    let b = Self::source_index(a, removed);
                    assert(after.fields[a] == before.fields[b]);
                    after.lemma_lookup(a);
                    before.lemma_lookup(b);
                }
            }
            assert forall|k: Seq<char>| #[trigger] before@.insert(key@, value@).contains_key(
                k,
            ) implies after@.contains_key(k) by {
                if k != key@ {
                    let b = choose|b: int| before.has_key_at(k, b);
                    assert(b != removed);
                    let a = if b < removed {
                        b
                    } else {
                        b - 1
                    };
                    assert(Self::source_index(a, removed) == b);
                    assert(after.fields[a] == before.fields[b]);
                    assert(after.has_key_at(k, a));
                }
            }
            assert(after@ =~= before@.insert(key@, value@));
        }
    }

    /// Where the entry at position `a` stood before the entry at `removed` was taken out.
    spec fn source_index(a: int, removed: int) -> int {
        if a < removed {
            a
        } else {
            a + 1
        }
    }

    fn position_in(fields: &Vec<(String, String)>, key: &str) -> (r: Option<usize>)
        ensures
            r matches Some(i) ==> i < fields.len() && fields[i as int].0@ == key@,
            r is None ==> forall|i: int| 0 <= i < fields.len() ==> #[trigger] fields[i].0@ != key@,
    {
        let needle = String::from_str(key);
        let mut i: usize = 0;
        while i < fields.len()
            invariant
                i <= fields.len(),
                needle@ == key@,
                forall|j: int| 0 <= j < i ==> #[trigger] fields[j].0@ != key@,
            decreases fields.len() - i,
        {
            if fields[i].0.eq(&needle) {
                return Some(i);
            }
            i = i + 1;
        }
        None
    }

    /// Whether the object has a field named `key`.
    pub fn contains_key(&self, key: &str) -> (b: bool)
        ensures
            b == self@.contains_key(key@),
    {
        proof {
            use_type_invariant(self);
        }
        match self.position(key) {
            Some(i) => {
                proof {
                    self.lemma_lookup(i as int);
                }
                true
            },
            None => {
                assert(!self@.contains_key(key@));
                false
            },
        }
    }

    /// The JSON text of the field named `key`, if there is one.
    pub fn get(&self, key: &str) -> (r: Option<String>)
        ensures
            r is Some <==> self@.contains_key(key@),
            r matches Some(v) ==> v@ == self@[key@],
    {
        proof {
            use_type_invariant(self);
        }
        match self.position(key) {
            Some(i) => {
                proof {
                    self.lemma_lookup(i as int);
                }
                Some(self.fields[i].1.clone())
            },
            None => {
                assert(!self@.contains_key(key@));
                None
            },
        }
    }
}

impl View for JsonResponse {
    type V = Map<Seq<char>, Seq<char>>;

    closed spec fn view(&self) -> Map<Seq<char>, Seq<char>> {
        self.fields_map()
    }
}

/// The JSON text of the field `key` of a reply; an error names the field when it is missing.
pub fn extract_string(json_response: &JsonResponse, key: &str) -> (r: Result<
    String,
    GithubDeviceOAuthError,
>)
    ensures
        r is Ok <==> json_response@.contains_key(key@),
        r matches Ok(v) ==> v@ == json_response@[key@],
        r matches Err(e) ==> e matches GithubDeviceOAuthError::FieldNotFoundError(k) && k@ == key@,
{
    match json_response.get(key) {
        Some(v) => Ok(v),
        None => Err(GithubDeviceOAuthError::FieldNotFoundError(key.to_owned())),
    }
}

/// The message GitHub gives with a refusal: the description when there is one, else the
/// error code.
pub open spec fn refusal_message(json: Map<Seq<char>, Seq<char>>) -> Seq<char> {
    if json.contains_key("error_description"@) {
        json["error_description"@]
    } else {
        json["error"@]
    }
}

/// Reads a reply of GitHub: a reply with an `error` field is a refusal, any other reply is
/// handed back unchanged.
pub fn check_response(response: JsonResponse) -> (r: Result<JsonResponse, GithubDeviceOAuthError>)
    ensures
        !response@.contains_key("error"@) ==> r == Ok::<JsonResponse, GithubDeviceOAuthError>(
            response,
        ),
        response@.contains_key("error"@) ==> (r matches Err(
            GithubDeviceOAuthError::ResponseError(m),
        ) && m@ == refusal_message(response@)),
{
    if response.contains_key("error") && response.contains_key("error_description") {
        let err = extract_string(&response, "error_description");
        match err {
            Ok(m) => Err(GithubDeviceOAuthError::ResponseError(m)),
            Err(e) => Err(e),
        }
    } else if response.contains_key("error") {
        let err = extract_string(&response, "error");
        match err {
            Ok(m) => Err(GithubDeviceOAuthError::ResponseError(m)),
            Err(e) => Err(e),
        }
    } else {
        Ok(response)
    }
}

/// An HTTP POST: where it goes and its body.
#[derive(Debug, Clone, PartialEq, Eq)]
pub struct PostRequest {
    pub url: String,
    pub body: String,
}

/// The URL that asks GitHub at `host` for a device code.
pub open spec fn device_code_url(host: Seq<char>) -> Seq<char> {
    "https:/"@ + host + "/login/device/code"@
}

/// The body that asks for a device code for the app `client_id` with the scopes `scopes`.
pub open spec fn device_code_body(client_id: Seq<char>, scopes: Seq<char>) -> Seq<char> {
    "client_id="@ + client_id + "&scope="@ + scopes
}

/// The URL that asks GitHub at `host` for an access token.
pub open spec fn access_token_url(host: Seq<char>) -> Seq<char> {
    "https:/"@ + host + "/login/oauth/access_token"@
}

/// The body that asks for the access token of the device `device_code`.
pub open spec fn access_token_body(client_id: Seq<char>, device_code: Seq<char>) -> Seq<char> {
    "client_id="@ + client_id + "&device_code="@ + device_code
        + "&grant_type=urn:ietf:params:oauth:grant-type:device_code"@
}

/// The first of the fields `device_code`, `user_code` and `verification_uri` that a reply
/// lacks.
pub open spec fn missing_verification_field(json: Map<Seq<char>, Seq<char>>) -> Seq<char> {
    if !json.contains_key("device_code"@) {
        "device_code"@
    } else if !json.contains_key("user_code"@) {
        "user_code"@
    } else {
        "verification_uri"@
    }
}

/// The codes GitHub hands out to verify a device.
#[derive(Debug, Clone, PartialEq, Eq)]
pub struct VerificationParams {
    pub device_code: String,
    pub user_code: String,
    pub verification_uri: String,
}

/// The state of a device flow: the app, GitHub's host, the scopes asked for and the codes
/// GitHub handed out for this device.
#[derive(Debug, Clone, PartialEq, Eq)]
pub struct GithubDeviceOAuthFlow {
    pub client_id: String,
    pub host: String,
    pub scopes: String,
    pub verification_params: VerificationParams,
}

/// What to do after GitHub answered the request for an access token.
#[derive(Debug, PartialEq, Eq)]
pub enum AuthorizeStep {
    /// The authorization is over, with this outcome.
    Finished(Result<Credentials, GithubDeviceOAuthError>),
    /// The access token has expired: ask for a refreshed one.
    RequestRefresh,
}

impl GithubDeviceOAuthFlow {
    /// The request that asks GitHub at `host` for the codes that verify a device.
    pub fn verification_params_request(client_id: &str, host: &str, scopes: &str) -> (r:
        PostRequest)
        ensures
            r.url@ == device_code_url(host@),
            r.body@ == device_code_body(client_id@, scopes@),
    {
        let url = String::from_str("https:/").concat(host).concat("/login/device/code");
        let body = String::from_str("client_id=").concat(client_id).concat("&scope=").concat(
            scopes,
        );
        PostRequest { url, body }
    }

    /// Reads the codes out of GitHub's answer to the verification request; the first of
    /// `device_code`, `user_code` and `verification_uri` that is missing is the error.
    pub fn request_verification_params(response: &JsonResponse) -> (r: Result<
        VerificationParams,
        GithubDeviceOAuthError,
    >)
        ensures
            r is Ok <==> (response@.contains_key("device_code"@) && response@.contains_key(
                "user_code"@,
            ) && response@.contains_key("verification_uri"@)),
            r matches Ok(p) ==> p.device_code@ == response@["device_code"@] && p.user_code@
                == response@["user_code"@] && p.verification_uri@
                == response@["verification_uri"@],
            r matches Err(e) ==> e matches GithubDeviceOAuthError::FieldNotFoundError(k) && k@
                == missing_verification_field(response@),
    {
        let device_code = match extract_string(response, "device_code") {
            Ok(v) => v,
            Err(e) => return Err(e),
        };
        let user_code = match extract_string(response, "user_code") {
            Ok(v) => v,
            Err(e) => return Err(e),
        };
        let verification_uri = match extract_string(response, "verification_uri") {
            Ok(v) => v,
            Err(e) => return Err(e),
        };
        Ok(VerificationParams { device_code, user_code, verification_uri })
    }

    /// A device flow for the app `client_id` at `host`, from GitHub's answer to the
    /// verification request.
    pub fn try_verify_device(client_id: String, host: String, scopes: String, response: &JsonResponse) -> (r: Result<Self, GithubDeviceOAuthError>)
        ensures
            r is Ok <==> (response@.contains_key("device_code"@) && response@.contains_key(
                "user_code"@,
            ) && response@.contains_key("verification_uri"@)),
            r matches Ok(flow) ==> flow.client_id == client_id && flow.host == host && flow.scopes
                == scopes && flow.verification_params.device_code@ == response@["device_code"@]
                && flow.verification_params.user_code@ == response@["user_code"@]
                && flow.verification_params.verification_uri@ == response@["verification_uri"@],
            r matches Err(e) ==> e matches GithubDeviceOAuthError::FieldNotFoundError(k) && k@
                == missing_verification_field(response@),
    {
        let verification_params = Self::request_verification_params(response)?;
        Ok(Self { client_id, host, scopes, verification_params })
    }

    /// The request that asks GitHub for the access token of this device.
    pub fn access_request(&self) -> (r: PostRequest)
        ensures
            r.url@ == access_token_url(self.host@),
            r.body@ == access_token_body(self.client_id@, self.verification_params.device_code@),
    {
        let url = String::from_str("https:/").concat(self.host.as_str()).concat(
            "/login/oauth/access_token",
        );
        let body = String::from_str("client_id=").concat(self.client_id.as_str()).concat(
            "&device_code=",
        ).concat(self.verification_params.device_code.as_str()).concat(
            "&grant_type=urn:ietf:params:oauth:grant-type:device_code",
        );
        PostRequest { url, body }
    }

    /// Decides after the request for an access token: an expired access token calls for a
    /// refresh, any other outcome ends the authorization.
    pub fn try_authorize(access: Result<Credentials, GithubDeviceOAuthError>) -> (r: AuthorizeStep)
        ensures
            access matches Err(GithubDeviceOAuthError::ExpiredAccessTokenError) ==> r
                == AuthorizeStep::RequestRefresh,
            !(access matches Err(GithubDeviceOAuthError::ExpiredAccessTokenError)) ==> r
                == AuthorizeStep::Finished(access),
    {
        match access {
            Ok(credentials) => AuthorizeStep::Finished(Ok(credentials)),
            Err(GithubDeviceOAuthError::ExpiredAccessTokenError) => AuthorizeStep::RequestRefresh,
            Err(other) => AuthorizeStep::Finished(Err(other)),
        }
    }
}

} // verus!
