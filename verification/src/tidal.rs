//! The session with the streaming service: the client's credentials and the
//! tokens that a device-flow login yields.
//!
//! Nothing here talks to the network or to the disk. The caller sends the
//! requests and hands over the texts that came back.

use crate::json::{json_member_text, json_pretty_text, member_text, pretty_text};
use crate::text::{first_line, first_line_of, unquoted, without_ends};
use vstd::prelude::*;

verus! {

/// Why a text could not be taken into the session.
#[derive(Clone, Copy, PartialEq, Eq, Structural, Debug)]
pub enum SessionError {
    /// The text is not a JSON document.
    NotJson,
    /// A member that should hold a quoted string is rendered in fewer than
    /// two characters.
    NotQuoted,
}

/// The text of an optional string.
pub open spec fn optional_text(text: Option<String>) -> Option<Seq<char>> {
    match text {
        Some(t) => Some(t@),
        None => None,
    }
}

/// The mathematical value of a session.
pub struct SessionModel {
    pub client_id: Seq<char>,
    pub url: Seq<char>,
    pub device_code: Seq<char>,
    pub token_type: Option<Seq<char>>,
    pub country_code: Option<Seq<char>>,
    pub access_token: Option<Seq<char>>,
    pub refresh_token: Option<Seq<char>>,
    pub log: Seq<char>,
}

/// The members of a saved session, each as its JSON text.
pub struct SavedTexts {
    pub client_id: String,
    pub device_code: String,
    pub access_token: String,
    pub refresh_token: String,
    pub token_type: String,
    pub country_code: String,
}

/// The members of a token response, each as its JSON text.
pub struct TokenTexts {
    pub access_token: String,
    pub refresh_token: String,
    pub token_type: String,
    pub country_code: String,
}

/// The mathematical value of `SavedTexts`.
pub struct SavedTextsModel {
    pub client_id: Seq<char>,
    pub device_code: Seq<char>,
    pub access_token: Seq<char>,
    pub refresh_token: Seq<char>,
    pub token_type: Seq<char>,
    pub country_code: Seq<char>,
}

/// The mathematical value of `TokenTexts`.
pub struct TokenTextsModel {
    pub access_token: Seq<char>,
    pub refresh_token: Seq<char>,
    pub token_type: Seq<char>,
    pub country_code: Seq<char>,
}

impl View for SavedTexts {
    type V = SavedTextsModel;

    open spec fn view(&self) -> SavedTextsModel {
        SavedTextsModel {
            client_id: self.client_id@,
            device_code: self.device_code@,
            access_token: self.access_token@,
            refresh_token: self.refresh_token@,
            token_type: self.token_type@,
            country_code: self.country_code@,
        }
    }
}

impl View for TokenTexts {
    type V = TokenTextsModel;

    open spec fn view(&self) -> TokenTextsModel {
        TokenTextsModel {
            access_token: self.access_token@,
            refresh_token: self.refresh_token@,
            token_type: self.token_type@,
            country_code: self.country_code@,
        }
    }
}

impl SavedTextsModel {
    /// Whether every member is long enough to hold two quotes.
    pub open spec fn quoted(self) -> bool {
        &&& self.client_id.len() >= 2
        &&& self.device_code.len() >= 2
        &&& self.access_token.len() >= 2
        &&& self.refresh_token.len() >= 2
        &&& self.token_type.len() >= 2
        &&& self.country_code.len() >= 2
    }
}

impl TokenTextsModel {
    /// Whether every member is long enough to hold two quotes.
    pub open spec fn quoted(self) -> bool {
        &&& self.access_token.len() >= 2
        &&& self.refresh_token.len() >= 2
        &&& self.token_type.len() >= 2
        &&& self.country_code.len() >= 2
    }
}

/// The members of the saved session `document`, as `serde_json` renders
/// them; `None` where one of them cannot be had.
pub open spec fn saved_members(document: Seq<char>) -> Option<SavedTextsModel> {
    match (
        json_member_text(document, "client_id"@),
        json_member_text(document, "device_code"@),
        json_member_text(document, "access_token"@),
        json_member_text(document, "refresh_token"@),
        json_member_text(document, "token_type"@),
        json_member_text(document, "country_code"@),
    ) {
        (
            Some(client_id),
            Some(device_code),
            Some(access_token),
            Some(refresh_token),
            Some(token_type),
            Some(country_code),
        ) => Some(
            SavedTextsModel {
                client_id,
                device_code,
                access_token,
                refresh_token,
                token_type,
                country_code,
            },
        ),
        _ => None,
    }
}

/// The members of the token response `body`, as `serde_json` renders them;
/// `None` where one of them cannot be had.
pub open spec fn token_members(body: Seq<char>) -> Option<TokenTextsModel> {
    match (
        json_member_text(body, "access_token"@),
        json_member_text(body, "refresh_token"@),
        json_member_text(body, "token_type"@),
        json_member_text(body, "countryCode"@),
    ) {
        (Some(access_token), Some(refresh_token), Some(token_type), Some(country_code)) => Some(
            TokenTextsModel { access_token, refresh_token, token_type, country_code },
        ),
        _ => None,
    }
}

impl SessionModel {
    /// The session of a first start, for the client `client_id`.
    pub open spec fn first(client_id: Seq<char>) -> SessionModel {
        SessionModel {
            client_id,
            url: "https://api.tidal.com/v1/"@,
            device_code: "Empty"@,
            token_type: None,
            country_code: None,
            access_token: None,
            refresh_token: None,
            log: "Empty"@,
        }
    }

    /// The session that was saved as `texts`, with `log` as its log.
    pub open spec fn restored(texts: SavedTextsModel, log: Seq<char>) -> SessionModel {
        SessionModel {
            client_id: without_ends(texts.client_id),
            url: "https://api.tidal.com/v1/"@,
            device_code: without_ends(texts.device_code),
            token_type: Some(without_ends(texts.token_type)),
            country_code: Some(without_ends(texts.country_code)),
            access_token: Some(without_ends(texts.access_token)),
            refresh_token: Some(without_ends(texts.refresh_token)),
            log,
        }
    }

    /// The session once the service has answered the device authorization
    /// with the device code `code_text`; `pretty` is the whole answer.
    pub open spec fn authorized(self, code_text: Seq<char>, pretty: Seq<char>) -> SessionModel {
        SessionModel {
            device_code: without_ends(code_text),
            log: "response: "@ + pretty + "\n device code: "@ + without_ends(code_text),
            ..self
        }
    }

    /// The session once the service has handed out the tokens of `texts`.
    pub open spec fn granted(self, texts: TokenTextsModel) -> SessionModel {
        SessionModel {
            token_type: Some(without_ends(texts.token_type)),
            country_code: Some(without_ends(texts.country_code)),
            access_token: Some(without_ends(texts.access_token)),
            refresh_token: Some(without_ends(texts.refresh_token)),
            ..self
        }
    }
}

/// What to show when the service refuses the tokens: its status, an empty
/// line, and the body of its answer.
pub open spec fn refusal_text(status: Seq<char>, body: Seq<char>) -> Seq<char> {
    status + "\n\n"@ + body
}

/// The credentials and tokens of one session.
pub struct TidalSession {
    client_id: String,
    url: String,
    device_code: String,
    token_type: Option<String>,
    country_code: Option<String>,
    access_token: Option<String>,
    refresh_token: Option<String>,
    log: String,
}

impl View for TidalSession {
    type V = SessionModel;

    closed spec fn view(&self) -> SessionModel {
        SessionModel {
            client_id: self.client_id@,
            url: self.url@,
            device_code: self.device_code@,
            token_type: optional_text(self.token_type),
            country_code: optional_text(self.country_code),
            access_token: optional_text(self.access_token),
            refresh_token: optional_text(self.refresh_token),
            log: self.log@,
        }
    }
}

fn text_of(text: &Option<String>) -> (shown: Option<&String>)
    ensures
        shown matches Some(t) ==> optional_text(*text) == Some(t@),
        shown is None ==> optional_text(*text) is None,
{
    match text {
        Some(t) => Some(t),
        None => None,
    }
}

impl TidalSession {
    /// The session of a first start. The client id is the first line of
    /// `credentials`; there is none where `credentials` is empty.
    pub fn new(credentials: &str) -> (made: Option<TidalSession>)
        ensures
            made is Some <==> credentials@.len() > 0,
            made matches Some(session) ==> session@ == SessionModel::first(
                first_line_of(credentials@)->0,
            ),
    {
        match first_line(credentials) {
            Some(client_id) => Some(
                TidalSession {
                    client_id,
                    url: String::from_str("https://api.tidal.com/v1/"),
                    device_code: String::from_str("Empty"),
                    token_type: None,
                    country_code: None,
                    access_token: None,
                    refresh_token: None,
                    log: String::from_str("Empty"),
                },
            ),
            None => None,
        }
    }

    /// The session whose members were saved as `texts`: each member is the
    /// text between its quotes. Fails where a member has no room for quotes.
    pub fn from_member_texts(texts: &SavedTexts, log: String) -> (made: Result<
        TidalSession,
        SessionError,
    >)
        ensures
            made is Ok <==> texts@.quoted(),
            made matches Ok(session) ==> session@ == SessionModel::restored(texts@, log@),
            made matches Err(e) ==> e == SessionError::NotQuoted,
    {
        let client_id = unquoted(texts.client_id.as_str());
        let device_code = unquoted(texts.device_code.as_str());
        let access_token = unquoted(texts.access_token.as_str());
        let refresh_token = unquoted(texts.refresh_token.as_str());
        let token_type = unquoted(texts.token_type.as_str());
        let country_code = unquoted(texts.country_code.as_str());
        match (client_id, device_code, access_token, refresh_token, token_type, country_code) {
            (
                Some(client_id),
                Some(device_code),
                Some(access_token),
                Some(refresh_token),
                Some(token_type),
                Some(country_code),
            ) => Ok(
                TidalSession {
                    client_id,
                    url: String::from_str("https://api.tidal.com/v1/"),
                    device_code,
                    token_type: Some(token_type),
                    country_code: Some(country_code),
                    access_token: Some(access_token),
                    refresh_token: Some(refresh_token),
                    log,
                },
            ),
            _ => Err(SessionError::NotQuoted),
        }
    }

    /// Takes the device code of the service's answer into the session and
    /// logs the answer. Fails, and changes nothing, where the code has no
    /// room for quotes.
    pub fn apply_device_code(&mut self, code_text: &str, pretty: &str) -> (done: Result<
        (),
        SessionError,
    >)
        ensures
            done is Ok <==> code_text@.len() >= 2,
            done is Ok ==> final(self)@ == old(self)@.authorized(code_text@, pretty@),
            done matches Err(e) ==> e == SessionError::NotQuoted && final(self)@ == old(self)@,
    {
        match unquoted(code_text) {
            Some(code) => {
                let mut log = String::from_str("response: ");
                log.append(pretty);
                log.append("\n device code: ");
                log.append(code.as_str());
                self.device_code = code;
                self.log = log;
                Ok(())
            },
            None => Err(SessionError::NotQuoted),
        }
    }

    /// Takes the tokens of the service's answer into the session. Fails, and
    /// changes nothing, where one of them has no room for quotes.
    pub fn apply_token_texts(&mut self, texts: &TokenTexts) -> (done: Result<(), SessionError>)
        ensures
            done is Ok <==> texts@.quoted(),
            done is Ok ==> final(self)@ == old(self)@.granted(texts@),
            done matches Err(e) ==> e == SessionError::NotQuoted && final(self)@ == old(self)@,
    {
        let access_token = unquoted(texts.access_token.as_str());
        let refresh_token = unquoted(texts.refresh_token.as_str());
        let token_type = unquoted(texts.token_type.as_str());
        let country_code = unquoted(texts.country_code.as_str());
        match (access_token, refresh_token, token_type, country_code) {
            (Some(access_token), Some(refresh_token), Some(token_type), Some(country_code)) => {
                self.access_token = Some(access_token);
                self.refresh_token = Some(refresh_token);
                self.token_type = Some(token_type);
                self.country_code = Some(country_code);
                Ok(())
            },
            _ => Err(SessionError::NotQuoted),
        }
    }

    /// Restores the session that was saved as the JSON document `document`.
    /// Its log is the document, pretty-printed.
    pub fn from_saved(document: &str) -> (made: Result<TidalSession, SessionError>)
        ensures
            match (saved_members(document@), json_pretty_text(document@)) {
                (Some(texts), Some(log)) => if texts.quoted() {
                    made matches Ok(session) && session@ == SessionModel::restored(texts, log)
                } else {
                    made matches Err(e) && e == SessionError::NotQuoted
                },
                _ => made matches Err(e) && e == SessionError::NotJson,
            },
    {
        let client_id = member_text(document, "client_id");
        let device_code = member_text(document, "device_code");
        let access_token = member_text(document, "access_token");
        let refresh_token = member_text(document, "refresh_token");
        let token_type = member_text(document, "token_type");
        let country_code = member_text(document, "country_code");
        let log = pretty_text(document);
        match (client_id, device_code, access_token, refresh_token, token_type, country_code, log) {
            (
                Ok(client_id),
                Ok(device_code),
                Ok(access_token),
                Ok(refresh_token),
                Ok(token_type),
                Ok(country_code),
                Ok(log),
            ) => {
                let texts = SavedTexts {
                    client_id,
                    device_code,
                    access_token,
                    refresh_token,
                    token_type,
                    country_code,
                };
                TidalSession::from_member_texts(&texts, log)
            },
            _ => Err(SessionError::NotJson),
        }
    }

    /// Takes in the service's answer to the device authorization: `body` is
    /// the JSON document that it sent. Changes nothing where it fails.
    pub fn login_oauth(&mut self, body: &str) -> (done: Result<(), SessionError>)
        ensures
            match (json_member_text(body@, "deviceCode"@), json_pretty_text(body@)) {
                (Some(code), Some(pretty)) => if code.len() >= 2 {
                    done is Ok && final(self)@ == old(self)@.authorized(code, pretty)
                } else {
                    done matches Err(e) && e == SessionError::NotQuoted && final(self)@ == old(
                        self,
                    )@
                },
                _ => done matches Err(e) && e == SessionError::NotJson && final(self)@ == old(
                    self,
                )@,
            },
    {
        match (member_text(body, "deviceCode"), pretty_text(body)) {
            (Ok(code), Ok(pretty)) => self.apply_device_code(code.as_str(), pretty.as_str()),
            _ => Err(SessionError::NotJson),
        }
    }

    /// Takes in the service's answer to the token request, and gives the text
    /// to show for it. `success` says whether the service accepted the
    /// request, `status` is the status that it sent and `body` its answer.
    /// A refusal changes nothing and is shown as it came. An acceptance is
    /// shown pretty-printed, and its tokens go into the session.
    pub fn post_after_user(&mut self, success: bool, status: &str, body: &str) -> (shown: Result<
        String,
        SessionError,
    >)
        ensures
            !success ==> final(self)@ == old(self)@ && (shown matches Ok(text) && text@
                == refusal_text(status@, body@)),
            success ==> match (token_members(body@), json_pretty_text(body@)) {
                (Some(texts), Some(pretty)) => if texts.quoted() {
                    (shown matches Ok(text) && text@ == pretty) && final(self)@ == old(
                        self,
                    )@.granted(texts)
                } else {
                    shown matches Err(e) && e == SessionError::NotQuoted && final(self)@ == old(
                        self,
                    )@
                },
                _ => shown matches Err(e) && e == SessionError::NotJson && final(self)@ == old(
                    self,
                )@,
            },
    {
        if !success {
            return Ok(refusal(status, body));
        }
        let access_token = member_text(body, "access_token");
        let refresh_token = member_text(body, "refresh_token");
        let token_type = member_text(body, "token_type");
        let country_code = member_text(body, "countryCode");
        let pretty = pretty_text(body);
        match (access_token, refresh_token, token_type, country_code, pretty) {
            (Ok(access_token), Ok(refresh_token), Ok(token_type), Ok(country_code), Ok(pretty)) => {
                let texts = TokenTexts { access_token, refresh_token, token_type, country_code };
                match self.apply_token_texts(&texts) {
                    Ok(()) => Ok(pretty),
                    Err(e) => Err(e),
                }
            },
            _ => Err(SessionError::NotJson),
        }
    }

    /// Replaces the log.
    pub fn set_log(&mut self, log: String)
        ensures
            final(self)@ == (SessionModel { log: log@, ..old(self)@ }),
    {
        self.log = log;
    }

    pub fn get_client_id(&self) -> (text: &String)
        ensures
            text@ == self@.client_id,
    {
        &self.client_id
    }

    pub fn get_url(&self) -> (text: &String)
        ensures
            text@ == self@.url,
    {
        &self.url
    }

    pub fn get_device_code(&self) -> (text: &String)
        ensures
            text@ == self@.device_code,
    {
        &self.device_code
    }

    pub fn get_token_type(&self) -> (text: Option<&String>)
        ensures
            text matches Some(t) ==> self@.token_type == Some(t@),
            text is None ==> self@.token_type is None,
    {
        text_of(&self.token_type)
    }

    pub fn get_country_code(&self) -> (text: Option<&String>)
        ensures
            text matches Some(t) ==> self@.country_code == Some(t@),
            text is None ==> self@.country_code is None,
    {
        text_of(&self.country_code)
    }

    pub fn get_access_token(&self) -> (text: Option<&String>)
        ensures
            text matches Some(t) ==> self@.access_token == Some(t@),
            text is None ==> self@.access_token is None,
    {
        text_of(&self.access_token)
    }

    pub fn get_refresh_token(&self) -> (text: Option<&String>)
        ensures
            text matches Some(t) ==> self@.refresh_token == Some(t@),
            text is None ==> self@.refresh_token is None,
    {
        text_of(&self.refresh_token)
    }

    pub fn get_log(&self) -> (text: &String)
        ensures
            text@ == self@.log,
    {
        &self.log
    }
}

/// What to show when the service refuses the tokens.
pub fn refusal(status: &str, body: &str) -> (shown: String)
    ensures
        shown@ == refusal_text(status@, body@),
{
    let mut shown = String::from_str(status);
    shown.append("\n\n");
    shown.append(body);
    shown
}

} // verus!
