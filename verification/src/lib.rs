mod errors;
mod frame;
mod reducer;
mod request;
mod signer;
mod text;
mod turn;

pub use errors::{classify_handshake_failure, message_of, SparkError};
pub use frame::{doc_code, doc_frag, doc_ok, doc_status, frame_frag, parse_frame, Frame};
pub use reducer::{
    can_merge, current_text, lemma_continuing_without_first, lemma_fragment_leaves_assistant_last,
    lemma_merge_accumulates, lemma_step_never_drops, step_acc, step_text, step_transcript, Reducer,
};
pub use request::{
    build_request_json, request_json, role_text, turn_json, turns_json, MAX_TOKENS_CEILING,
};
pub use signer::{
    authorization_origin, authorization_value, base64_of, canonical_origin, form_encoded,
    hmac_sha256_tag, lemma_canonical_origin_injective, lemma_signing_deterministic, signature_b64,
    signed_query, signed_url, signed_url_for_parts, url_has_host, url_host, url_path,
};
pub use text::{dec_digits, esc_char, json_escaped};
pub use turn::{Role, Turn, TurnV};

use vstd::prelude::*;

verus! {

/// A streaming chat client: holds the credentials and the endpoint used to
/// sign and open one conversation session.
pub struct SparkAI {
    pub app_id: String,
    pub api_key: String,
    pub api_secret: String,
    pub api_url: String,
}

impl SparkAI {
    pub fn new(app_id: &str, api_key: &str, api_secret: &str, api_url: &str) -> (r: Self)
        ensures
            r.app_id@ == app_id@,
            r.api_key@ == api_key@,
            r.api_secret@ == api_secret@,
            r.api_url@ == api_url@,
    {
        SparkAI {
            app_id: app_id.to_owned(),
            api_key: api_key.to_owned(),
            api_secret: api_secret.to_owned(),
            api_url: api_url.to_owned(),
        }
    }

    /// The signed connection URL for the endpoint and a caller-captured date.
    ///
    /// Succeeds exactly when the endpoint parses into host and path; the same
    /// date text must be used for the whole call: it stands both in the
    /// signed canonical text and in the URL's `date` parameter.
    pub fn authorization_url_with_date(&self, date: &str) -> (r: Result<String, SparkError>)
        ensures
            r is Ok <==> signer::url_has_host(self.api_url@),
            r matches Ok(u) ==> u@ == signer::signed_url(
                self.api_url@,
                self.api_key@,
                self.api_secret@,
                signer::url_host(self.api_url@),
                date@,
                signer::url_path(self.api_url@),
            ),
            r matches Err(e) ==> e == SparkError::InvalidEndpoint,
    {
        match signer::parse_host_path(self.api_url.as_str()) {
            Some(hp) => Ok(
                signer::signed_url_for_parts(
                    self.api_key.as_str(),
                    self.api_secret.as_str(),
                    self.api_url.as_str(),
                    hp.0.as_str(),
                    hp.1.as_str(),
                    date,
                ),
            ),
            None => Err(SparkError::InvalidEndpoint),
        }
    }

    /// The signed connection URL for the endpoint, dated now.
    ///
    /// Succeeds exactly when the endpoint parses into host and path.
    pub fn get_authorization_url(&self) -> (r: Result<String, SparkError>)
        ensures
            r is Ok <==> signer::url_has_host(self.api_url@),
            r matches Ok(u) ==> exists|d: Seq<char>|
                u@ == signer::signed_url(
                    self.api_url@,
                    self.api_key@,
                    self.api_secret@,
                    signer::url_host(self.api_url@),
                    d,
                    signer::url_path(self.api_url@),
                ),
            r matches Err(e) ==> e == SparkError::InvalidEndpoint,
    {
        let date = signer::now_rfc1123();
        let r = self.authorization_url_with_date(date.as_str());
        proof {
            if r is Ok {
                assert(r->Ok_0@ == signer::signed_url(
                    self.api_url@,
                    self.api_key@,
                    self.api_secret@,
                    signer::url_host(self.api_url@),
                    date@,
                    signer::url_path(self.api_url@),
                ));
            }
        }
        r
    }

    /// Pushes the user's query onto the transcript as its newest turn.
    pub fn get_prompt(&self, query: &str, history: &mut Vec<Turn>)
        ensures
            final(history)@.len() == old(history)@.len() + 1,
            final(history).deep_view() == old(history).deep_view().push(
                TurnV { role: Role::User, content: query@ },
            ),
    {
        history.push(Turn { role: Role::User, content: query.to_owned() });
        assert(final(history).deep_view() =~= old(history).deep_view().push(
            TurnV { role: Role::User, content: query@ },
        ));
    }

    /// Builds the one outbound request document from a transcript snapshot.
    ///
    /// The token count is clamped to the protocol ceiling of 4096 whatever
    /// the caller asked for; the temperature is a decimal literal passed
    /// through unvalidated.
    pub fn build_inputs(
        &self,
        history: &Vec<Turn>,
        user_id: &str,
        domain: &str,
        temperature: &str,
        max_tokens: u32,
    ) -> (r: String)
        ensures
            r@ == request_json(
                self.app_id@,
                user_id@,
                domain@,
                temperature@,
                if max_tokens > 4096 {
                    4096int
                } else {
                    max_tokens as int
                },
                history.deep_view(),
            ),
    {
        build_request_json(self.app_id.as_str(), user_id, domain, temperature, max_tokens, history)
    }

    /// Reads one inbound message and applies it to the transcript.
    ///
    /// A text that is not a protocol document leaves everything unchanged and
    /// reports `ProtocolFrameError`; a document with a non-zero application
    /// code leaves everything unchanged and reports that code; any other
    /// document rewrites the transcript by exactly one reducer step on the
    /// document's status and fragment, and reports the accumulated assistant
    /// text with that status.
    pub fn process_response(
        &self,
        response_str: &str,
        history: &mut Vec<Turn>,
        state: &mut Reducer,
    ) -> (r: Result<(String, i64), SparkError>)
        ensures
            r is Err <==> !frame::doc_ok(response_str@) || frame::doc_code(response_str@) != 0,
            !frame::doc_ok(response_str@) ==> r == Err::<(String, i64), SparkError>(
                SparkError::ProtocolFrameError,
            ),
            frame::doc_ok(response_str@) && frame::doc_code(response_str@) != 0 ==> r == Err::<
                (String, i64),
                SparkError,
            >(SparkError::RemoteApplicationError(frame::doc_code(response_str@))),
            r is Err ==> final(history)@ == old(history)@ && *final(state) == *old(state),
            r matches Ok(p) ==> ({
                let st = frame::doc_status(response_str@) as int;
                let frag = frame::doc_frag(response_str@);
                &&& final(history).deep_view() == step_transcript(
                    old(state).accumulating,
                    old(history).deep_view(),
                    st,
                    frag,
                )
                &&& final(state).accumulating == step_acc(old(state).accumulating, frag)
                &&& p.0@ == step_text(old(state).accumulating, old(history).deep_view(), st, frag)
                &&& p.1 == frame::doc_status(response_str@)
            }),
    {
        let frame = match parse_frame(response_str) {
            Ok(f) => f,
            Err(e) => {
                return Err(e);
            },
        };
        match state.apply(history, &frame) {
            Ok(text) => {
                proof {
                    assert(final(history).deep_view() == step_transcript(
                        old(state).accumulating,
                        old(history).deep_view(),
                        frame.status as int,
                        frame_frag(frame),
                    ));
                }
                Ok((text, frame.status))
            },
            Err(e) => Err(e),
        }
    }
}

} // verus!
