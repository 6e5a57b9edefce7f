//! One run of the tool: what has to be done next, and what follows from the answer.
//!
//! A [`Run`] asks for one [`Action`] at a time. The caller performs it and hands the answer back
//! as an [`Event`]. An action that fails outside the library ends the run with its own error.
use crate::auth::{resolve_auth_credentials, Cli};
use crate::client::{client_settings, ClientSettings};
use crate::cookies::extract_cookie_header;
use crate::error::IaGetError;
use crate::http::Status;
use crate::login::{
    csrf_token, login_request, login_session, LoginRequest, LoginResponse, LoginTokenResponse,
    LOGIN_API_URL,
};
use crate::metadata::{files_base_url, get_xml_url};
use crate::plan::{no_downloads_error, plan_downloads, DownloadPlan, ListedFile};
#[allow(unused_imports)]
use crate::auth::CliView;
#[allow(unused_imports)]
use crate::client::{settings_for, settings_with, ClientSettingsView};
#[allow(unused_imports)]
use crate::cookies::{cookie_header_can_be_sent, cookie_header_of};
#[allow(unused_imports)]
use crate::error::{outcome, ErrorView};
#[allow(unused_imports)]
use crate::http::{header_values, is_success, parsed_url, status_text, values_under};
#[allow(unused_imports)]
use crate::login::{request_of, LoginRequestView, LoginResponseView, LoginTokenResponseView};
#[allow(unused_imports)]
use crate::metadata::{base_of, files_list_url, identifier};
#[allow(unused_imports)]
use crate::plan::{
    authentication_gives_access_to_every_file, download_of, entries_of,
    plan_accounts_for_every_file, plan_of, private_files_need_authentication, urls_of,
    DownloadPlanView, Entry, ListedFileView,
};
use reqwest::header::{HeaderMap, HeaderValue};
use vstd::prelude::*;

verus! {

/// Timeout of the requests that only ask or log in.
pub const REQUEST_TIMEOUT_SECS: u64 = 60;

/// Where a run stands: which action it waits for, and what that takes.
enum Stage {
    ValidateUrl,
    Bootstrap { settings: ClientSettings },
    RequestToken,
    SubmitLogin { request: LoginRequest },
    Reconnect { settings: ClientSettings },
    CheckItem,
    CheckMetadata { xml_url: String },
    FetchMetadata { xml_url: String, base_url: String },
    Download { plan: DownloadPlan },
    NoFiles { private_count: usize, error: IaGetError },
    LoginFailed { error: IaGetError },
    Failed { error: IaGetError },
    Finished,
}

/// Where a run stands, as plain values.
pub enum StageView {
    /// The URL is to be validated.
    ValidateUrl,
    /// A client without a session is to be built.
    Bootstrap { settings: ClientSettingsView },
    /// A login token is to be fetched.
    RequestToken,
    /// The login is to be sent.
    SubmitLogin { request: LoginRequestView },
    /// A client with the session cookie is to be built.
    Reconnect { settings: ClientSettingsView },
    /// The item is to be checked for access.
    CheckItem,
    /// The files list is to be checked for access.
    CheckMetadata { xml_url: Seq<char> },
    /// The files list is to be fetched and parsed.
    FetchMetadata { xml_url: Seq<char>, base_url: Seq<char> },
    /// The files are to be downloaded.
    Download { plan: DownloadPlanView },
    /// There is nothing to download.
    NoFiles { private_count: nat, error: ErrorView },
    /// The run has failed over its login.
    LoginFailed { error: ErrorView },
    /// The run has failed otherwise.
    Failed { error: ErrorView },
    /// The run is done.
    Finished,
}

/// The answer to an action.
pub enum Event {
    /// The URL has the form of a details URL.
    UrlValid,
    /// The client is built.
    ClientReady,
    /// The reply to the token request.
    Token(LoginTokenResponse),
    /// The reply to the login, with the cookie that its headers make: see [`login_answer`].
    LoginReply { status: Status, session_cookie: Option<String>, payload: LoginResponse },
    /// The URL is accessible.
    Accessible,
    /// The files that the metadata lists.
    Metadata(Vec<ListedFile>),
    /// All files are downloaded.
    Downloaded,
}

/// An [`Event`] as plain values.
pub enum EventView {
    UrlValid,
    ClientReady,
    Token(LoginTokenResponseView),
    LoginReply { code: u16, session_cookie: Option<Seq<char>>, payload: LoginResponseView },
    Accessible,
    Metadata(Seq<ListedFileView>),
    Downloaded,
}

/// What a run asks for.
pub enum Action<'a> {
    /// Validate the form of the URL.
    ValidateUrl { url: &'a str },
    /// Build the client for all that follows.
    BuildClient { settings: &'a ClientSettings },
    /// Fetch a login token.
    GetLoginToken { url: &'a str, timeout_secs: u64 },
    /// Send the login.
    PostLogin { url: &'a str, timeout_secs: u64, request: &'a LoginRequest },
    /// Check that the item is accessible.
    CheckItem { url: &'a str, timeout_secs: u64 },
    /// Check that the files list is accessible.
    CheckMetadata { url: &'a str, timeout_secs: u64 },
    /// Fetch the files list and parse it.
    FetchMetadata { url: &'a str },
    /// Download the files.
    Download { plan: &'a DownloadPlan, authenticated: bool },
    /// Say that there is nothing to download, and fail.
    ReportNoFiles { private_count: usize, error: &'a IaGetError },
    /// Say that the login failed, and fail.
    ReportFailedLogin { error: &'a IaGetError },
    /// Fail.
    Fail { error: &'a IaGetError },
    /// Nothing is left to do.
    Finish,
}

/// An [`Action`] as plain values.
pub enum ActionView {
    ValidateUrl { url: Seq<char> },
    BuildClient { settings: ClientSettingsView },
    GetLoginToken { url: Seq<char>, timeout_secs: u64 },
    PostLogin { url: Seq<char>, timeout_secs: u64, request: LoginRequestView },
    CheckItem { url: Seq<char>, timeout_secs: u64 },
    CheckMetadata { url: Seq<char>, timeout_secs: u64 },
    FetchMetadata { url: Seq<char> },
    Download { plan: DownloadPlanView, authenticated: bool },
    ReportNoFiles { private_count: nat, error: ErrorView },
    ReportFailedLogin { error: ErrorView },
    Fail { error: ErrorView },
    Finish,
}

/// A run of the tool.
pub struct Run {
    url: String,
    credentials: Option<(String, String)>,
    stage: Stage,
}

/// A [`Run`] as plain values.
pub struct RunView {
    pub url: Seq<char>,
    pub credentials: Option<(Seq<char>, Seq<char>)>,
    pub stage: StageView,
}

impl DeepView for Stage {
    type V = StageView;

    closed spec fn deep_view(&self) -> StageView {
        match self {
            Stage::ValidateUrl => StageView::ValidateUrl,
            Stage::Bootstrap { settings } => StageView::Bootstrap {
                settings: settings.deep_view(),
            },
            Stage::RequestToken => StageView::RequestToken,
            Stage::SubmitLogin { request } => StageView::SubmitLogin {
                request: request.deep_view(),
            },
            Stage::Reconnect { settings } => StageView::Reconnect {
                settings: settings.deep_view(),
            },
            Stage::CheckItem => StageView::CheckItem,
            Stage::CheckMetadata { xml_url } => StageView::CheckMetadata { xml_url: xml_url@ },
            Stage::FetchMetadata { xml_url, base_url } => StageView::FetchMetadata {
                xml_url: xml_url@,
                base_url: base_url@,
            },
            Stage::Download { plan } => StageView::Download { plan: plan.deep_view() },
            Stage::NoFiles { private_count, error } => StageView::NoFiles {
                private_count: *private_count as nat,
                error: error.deep_view(),
            },
            Stage::LoginFailed { error } => StageView::LoginFailed { error: error.deep_view() },
            Stage::Failed { error } => StageView::Failed { error: error.deep_view() },
            Stage::Finished => StageView::Finished,
        }
    }
}

impl DeepView for Event {
    type V = EventView;

    open spec fn deep_view(&self) -> EventView {
        match self {
            Event::UrlValid => EventView::UrlValid,
            Event::ClientReady => EventView::ClientReady,
            Event::Token(payload) => EventView::Token(payload.deep_view()),
            Event::LoginReply { status, session_cookie, payload } => EventView::LoginReply {
                code: status.deep_view(),
                session_cookie: session_cookie.deep_view(),
                payload: payload.deep_view(),
            },
            Event::Accessible => EventView::Accessible,
            Event::Metadata(files) => EventView::Metadata(files.deep_view()),
            Event::Downloaded => EventView::Downloaded,
        }
    }
}

impl<'a> DeepView for Action<'a> {
    type V = ActionView;

    open spec fn deep_view(&self) -> ActionView {
        match self {
            Action::ValidateUrl { url } => ActionView::ValidateUrl { url: url@ },
            Action::BuildClient { settings } => ActionView::BuildClient {
                settings: settings.deep_view(),
            },
            Action::GetLoginToken { url, timeout_secs } => ActionView::GetLoginToken {
                url: url@,
                timeout_secs: *timeout_secs,
            },
            Action::PostLogin { url, timeout_secs, request } => ActionView::PostLogin {
                url: url@,
                timeout_secs: *timeout_secs,
                request: request.deep_view(),
            },
            Action::CheckItem { url, timeout_secs } => ActionView::CheckItem {
                url: url@,
                timeout_secs: *timeout_secs,
            },
            Action::CheckMetadata { url, timeout_secs } => ActionView::CheckMetadata {
                url: url@,
                timeout_secs: *timeout_secs,
            },
            Action::FetchMetadata { url } => ActionView::FetchMetadata { url: url@ },
            Action::Download { plan, authenticated } => ActionView::Download {
                plan: plan.deep_view(),
                authenticated: *authenticated,
            },
            Action::ReportNoFiles { private_count, error } => ActionView::ReportNoFiles {
                private_count: *private_count as nat,
                error: error.deep_view(),
            },
            Action::ReportFailedLogin { error } => ActionView::ReportFailedLogin {
                error: error.deep_view(),
            },
            Action::Fail { error } => ActionView::Fail { error: error.deep_view() },
            Action::Finish => ActionView::Finish,
        }
    }
}

impl DeepView for Run {
    type V = RunView;

    closed spec fn deep_view(&self) -> RunView {
        RunView {
            url: self.url@,
            credentials: self.credentials.deep_view(),
            stage: self.stage.deep_view(),
        }
    }
}

impl StageView {
    /// The stage after a token reply, for the given credentials.
    pub open spec fn after_token(
        credentials: (Seq<char>, Seq<char>),
        payload: LoginTokenResponseView,
    ) -> StageView {
        match payload.granted() {
            Ok(token) => StageView::SubmitLogin {
                request: request_of(credentials.0, credentials.1, token),
            },
            Err(error) => StageView::LoginFailed { error },
        }
    }

    /// The stage after a login that came to the given session.
    pub open spec fn after_login(session: Result<Seq<char>, ErrorView>) -> StageView {
        match session {
            Ok(cookie) => match settings_for(Some(cookie)) {
                Ok(settings) => StageView::Reconnect { settings },
                Err(error) => StageView::Failed { error },
            },
            Err(error) => StageView::LoginFailed { error },
        }
    }

    /// The stage after the files list was found accessible, given its base URL.
    pub open spec fn after_metadata_check(
        xml_url: Seq<char>,
        base: Result<Seq<char>, ErrorView>,
    ) -> StageView {
        match base {
            Ok(base_url) => StageView::FetchMetadata { xml_url, base_url },
            Err(error) => StageView::Failed { error },
        }
    }

    /// The stage after the downloads were planned.
    pub open spec fn after_planning(plan: DownloadPlanView) -> StageView {
        if plan.downloads.len() > 0 {
            StageView::Download { plan }
        } else {
            StageView::NoFiles { private_count: plan.private_count, error: plan.emptiness() }
        }
    }
}

impl RunView {
    /// A run before its first action.
    pub open spec fn fresh(url: Seq<char>, credentials: Option<(Seq<char>, Seq<char>)>) -> RunView {
        RunView { url, credentials, stage: StageView::ValidateUrl }
    }

    /// The run with another stage.
    pub open spec fn at(self, stage: StageView) -> RunView {
        RunView { stage, ..self }
    }

    /// The run after an event. An event that does not answer the action asked for changes
    /// nothing.
    pub open spec fn next(self, event: EventView) -> RunView {
        match (self.stage, event) {
            (StageView::ValidateUrl, EventView::UrlValid) => self.at(
                StageView::Bootstrap { settings: settings_with(None) },
            ),
            (StageView::Bootstrap { .. }, EventView::ClientReady) => self.at(
                if self.credentials is Some {
                    StageView::RequestToken
                } else {
                    StageView::CheckItem
                },
            ),
            (StageView::RequestToken, EventView::Token(payload)) => self.at(
                StageView::after_token(self.credentials->0, payload),
            ),
            (
                StageView::SubmitLogin { .. },
                EventView::LoginReply { code, session_cookie, payload },
            ) => self.at(
                StageView::after_login(payload.session(code, status_text(code), session_cookie)),
            ),
            (StageView::Reconnect { .. }, EventView::ClientReady) => self.at(StageView::CheckItem),
            (StageView::CheckItem, EventView::Accessible) => self.at(
                StageView::CheckMetadata { xml_url: files_list_url(identifier(self.url)) },
            ),
            (StageView::CheckMetadata { xml_url }, EventView::Accessible) => self.at(
                StageView::after_metadata_check(xml_url, base_of(parsed_url(xml_url))),
            ),
            (StageView::FetchMetadata { base_url, .. }, EventView::Metadata(files)) => self.at(
                StageView::after_planning(
                    plan_of(
                        entries_of(files, urls_of(files, base_url)),
                        self.credentials is Some,
                    ),
                ),
            ),
            (StageView::Download { .. }, EventView::Downloaded) => self.at(StageView::Finished),
            _ => self,
        }
    }

    /// What the run asks for.
    pub open spec fn action(self) -> ActionView {
        match self.stage {
            StageView::ValidateUrl => ActionView::ValidateUrl { url: self.url },
            StageView::Bootstrap { settings } => ActionView::BuildClient { settings },
            StageView::RequestToken => ActionView::GetLoginToken {
                url: LOGIN_API_URL@,
                timeout_secs: REQUEST_TIMEOUT_SECS,
            },
            StageView::SubmitLogin { request } => ActionView::PostLogin {
                url: LOGIN_API_URL@,
                timeout_secs: REQUEST_TIMEOUT_SECS,
                request,
            },
            StageView::Reconnect { settings } => ActionView::BuildClient { settings },
            StageView::CheckItem => ActionView::CheckItem {
                url: self.url,
                timeout_secs: REQUEST_TIMEOUT_SECS,
            },
            StageView::CheckMetadata { xml_url } => ActionView::CheckMetadata {
                url: xml_url,
                timeout_secs: REQUEST_TIMEOUT_SECS,
            },
            StageView::FetchMetadata { xml_url, .. } => ActionView::FetchMetadata { url: xml_url },
            StageView::Download { plan } => ActionView::Download {
                plan,
                authenticated: self.credentials is Some,
            },
            StageView::NoFiles { private_count, error } => ActionView::ReportNoFiles {
                private_count,
                error,
            },
            StageView::LoginFailed { error } => ActionView::ReportFailedLogin { error },
            StageView::Failed { error } => ActionView::Fail { error },
            StageView::Finished => ActionView::Finish,
        }
    }

    /// What holds of a run at every stage: a login is under way only with credentials, and sends
    /// just them; a client has a session cookie exactly after a login; the files list is that of
    /// the item; a download is never empty.
    pub open spec fn consistent(self) -> bool {
        match self.stage {
            StageView::Bootstrap { settings } => settings == settings_with(None),
            StageView::RequestToken => self.credentials is Some,
            StageView::SubmitLogin { request } => {
                &&& self.credentials matches Some(pair)
                &&& request == request_of(pair.0, pair.1, request.t)
            },
            StageView::Reconnect { settings } => {
                &&& self.credentials is Some
                &&& settings.cookie is Some
                &&& settings == settings_with(settings.cookie)
            },
            StageView::CheckMetadata { xml_url } => xml_url == files_list_url(identifier(self.url)),
            StageView::FetchMetadata { xml_url, .. } => {
                xml_url == files_list_url(identifier(self.url))
            },
            StageView::Download { plan } => {
                &&& plan.downloads.len() > 0
                &&& self.credentials is Some ==> plan.private_count == 0
            },
            _ => true,
        }
    }
}

proof fn next_keeps_consistent(run: RunView, event: EventView)
    requires
        run.consistent(),
    ensures
        run.next(event).consistent(),
{
    if let (StageView::FetchMetadata { base_url, .. }, EventView::Metadata(files)) = (
        run.stage,
        event,
    ) {
        if run.credentials is Some {
            authentication_gives_access_to_every_file(
                entries_of(files, urls_of(files, base_url)),
            );
        }
    }
}

impl RunView {
    /// The run after a sequence of events.
    pub open spec fn after(self, events: Seq<EventView>) -> RunView
        decreases events.len(),
    {
        if events.len() == 0 {
            self
        } else {
            self.after(events.drop_last()).next(events.last())
        }
    }

    /// Why the event refuses the login, where the run is logging in and the event does.
    pub open spec fn login_refusal(self, event: EventView) -> Option<ErrorView> {
        let answer = match (self.stage, event) {
            (StageView::RequestToken, EventView::Token(payload)) => payload.granted(),
            (
                StageView::SubmitLogin { .. },
                EventView::LoginReply { code, session_cookie, payload },
            ) => payload.session(code, status_text(code), session_cookie),
            _ => Ok(Seq::empty()),
        };
        match answer {
            Ok(_) => None,
            Err(error) => Some(error),
        }
    }

    /// Whether the run is over.
    pub open spec fn is_over(self) -> bool {
        ||| self.stage is NoFiles
        ||| self.stage is LoginFailed
        ||| self.stage is Failed
        ||| self.stage is Finished
    }

    /// How many actions can still follow.
    pub open spec fn actions_left(self) -> nat {
        match self.stage {
            StageView::ValidateUrl => 9,
            StageView::Bootstrap { .. } => 8,
            StageView::RequestToken => 7,
            StageView::SubmitLogin { .. } => 6,
            StageView::Reconnect { .. } => 5,
            StageView::CheckItem => 4,
            StageView::CheckMetadata { .. } => 3,
            StageView::FetchMetadata { .. } => 2,
            StageView::Download { .. } => 1,
            _ => 0,
        }
    }
}

/// Whatever events come, in whatever order, a run stays consistent and keeps its URL and its
/// credentials.
pub proof fn runs_stay_consistent(
    url: Seq<char>,
    credentials: Option<(Seq<char>, Seq<char>)>,
    events: Seq<EventView>,
)
    ensures
        RunView::fresh(url, credentials).after(events).consistent(),
        RunView::fresh(url, credentials).after(events).url == url,
        RunView::fresh(url, credentials).after(events).credentials == credentials,
    decreases events.len(),
{
    if events.len() > 0 {
        runs_stay_consistent(url, credentials, events.drop_last());
        next_keeps_consistent(
            RunView::fresh(url, credentials).after(events.drop_last()),
            events.last(),
        );
    }
}

/// A run comes to an end: every event changes nothing or leaves fewer actions to follow, and no
/// action follows exactly when the run is over.
pub proof fn runs_come_to_an_end(run: RunView, event: EventView)
    ensures
        run.next(event) == run || run.next(event).actions_left() < run.actions_left(),
        run.is_over() <==> run.actions_left() == 0,
        run.is_over() ==> run.next(event) == run,
{
}

/// A run without credentials never logs in, and never has a session cookie.
pub proof fn no_login_without_credentials(url: Seq<char>, events: Seq<EventView>)
    ensures
        !(RunView::fresh(url, None).after(events).action() is GetLoginToken),
        !(RunView::fresh(url, None).after(events).action() is PostLogin),
        RunView::fresh(url, None).after(events).action() matches ActionView::BuildClient { settings }
            ==> settings.cookie is None,
{
    runs_stay_consistent(url, None, events);
}

/// The login is sent with just the credentials that the run was given.
pub proof fn login_sends_the_given_credentials(
    url: Seq<char>,
    credentials: (Seq<char>, Seq<char>),
    events: Seq<EventView>,
)
    ensures
        RunView::fresh(url, Some(credentials)).after(events).action() matches ActionView::PostLogin {
            url: login_url,
            request,
            ..
        } ==> {
            &&& login_url == LOGIN_API_URL@
            &&& request.username == credentials.0
            &&& request.password == credentials.1
            &&& request.remember == "false"@
        },
{
    runs_stay_consistent(url, Some(credentials), events);
}

/// The login is sent only after a token was granted, and carries that token.
pub proof fn login_carries_the_granted_token(run: RunView, event: EventView)
    requires
        !(run.stage is SubmitLogin),
    ensures
        run.next(event).stage matches StageView::SubmitLogin { request } ==> {
            &&& run.stage is RequestToken
            &&& event matches EventView::Token(payload)
            &&& payload.granted() == Ok::<_, ErrorView>(request.t)
        },
{
}

/// No action but the login depends on what the credentials are.
pub proof fn credentials_reach_only_the_login(run: RunView, others: (Seq<char>, Seq<char>))
    requires
        run.credentials is Some,
        !(run.stage is SubmitLogin),
    ensures
        (RunView { credentials: Some(others), ..run }).action() == run.action(),
{
}

/// A run with credentials touches the item only with the client of a session: the check of the
/// item follows the client that was built after the login, and that client is asked for only where
/// status and payload of the login reported success and cookies came.
pub proof fn session_comes_before_the_item(run: RunView, event: EventView)
    requires
        run.credentials is Some,
    ensures
        run.next(event).stage is CheckItem ==> run.stage is CheckItem || run.stage is Reconnect,
        run.next(event).stage is Reconnect && !(run.stage is Reconnect) ==> {
            &&& run.stage is SubmitLogin
            &&& event matches EventView::LoginReply { code, session_cookie: Some(cookie), payload }
            &&& is_success(code)
            &&& payload.success
            &&& settings_for(Some(cookie)) == Ok::<_, ErrorView>(
                run.next(event).stage->Reconnect_settings,
            )
        },
{
}

/// A login that succeeds with cookies always leads to a session: the cookie that is made of the
/// headers of its reply can be sent, whatever they hold.
pub proof fn successful_login_opens_a_session(
    run: RunView,
    code: u16,
    payload: LoginResponseView,
    values: Seq<Seq<u8>>,
)
    requires
        run.stage is SubmitLogin,
        is_success(code),
        payload.success,
        cookie_header_of(values) is Some,
    ensures
        run.next(
            EventView::LoginReply { code, session_cookie: cookie_header_of(values), payload },
        ).stage == (StageView::Reconnect {
            settings: settings_with(Some(vstd::utf8::encode_utf8(cookie_header_of(values)->0))),
        }),
{
    cookie_header_can_be_sent(values);
}

/// A login that is refused, be it the token or the login itself, ends the run with the reason, and
/// the run says that it was the login. It says so for nothing else.
pub proof fn refused_login_is_reported(run: RunView, event: EventView)
    requires
        !(run.stage is LoginFailed),
    ensures
        match run.login_refusal(event) {
            Some(error) => run.next(event).action() == (ActionView::ReportFailedLogin { error }),
            None => !(run.next(event).action() is ReportFailedLogin),
        },
{
}

/// Files are downloaded only after the files list was read, and the files list is read only after
/// item and list were found accessible.
pub proof fn access_is_checked_before_downloads(run: RunView, event: EventView)
    ensures
        run.next(event).stage is CheckMetadata && !(run.stage is CheckMetadata) ==> run.stage
            is CheckItem && event is Accessible,
        run.next(event).stage is FetchMetadata && !(run.stage is FetchMetadata) ==> run.stage
            is CheckMetadata && event is Accessible,
        run.next(event).stage is Download && !(run.stage is Download) ==> run.stage is FetchMetadata
            && event is Metadata,
{
}

/// A run without credentials downloads only listed files that are not private.
pub proof fn open_runs_download_open_files(run: RunView, files: Seq<ListedFileView>, i: int)
    requires
        run.credentials is None,
        run.stage is FetchMetadata,
        run.next(EventView::Metadata(files)).stage is Download,
        0 <= i < run.next(EventView::Metadata(files)).stage->plan.downloads.len(),
    ensures
        exists|k: int|
            0 <= k < files.len() && !(#[trigger] files[k]).is_private() && download_of(
                (files[k], urls_of(files, run.stage->base_url)[k]),
            ) == run.next(EventView::Metadata(files)).stage->plan.downloads[i],
{
    let entries = entries_of(files, urls_of(files, run.stage->base_url));
    let plan = plan_of(entries, false);
    private_files_need_authentication(entries, i);
    let entry = choose|entry: Entry|
        #![trigger entries.contains(entry)]
        entries.contains(entry) && !entry.0.is_private() && download_of(entry)
            == plan.downloads[i];
    let k = choose|k: int| 0 <= k < entries.len() && entries[k] == entry;
    assert(!files[k].is_private());
}

/// Where every listed file is private and no credentials were given, the run ends by counting them
/// all and asking for credentials.
pub proof fn private_items_ask_for_credentials(run: RunView, files: Seq<ListedFileView>)
    requires
        run.credentials is None,
        run.stage is FetchMetadata,
        files.len() > 0,
        forall|i: int| 0 <= i < files.len() ==> (#[trigger] files[i]).is_private(),
    ensures
        run.next(EventView::Metadata(files)).stage == (StageView::NoFiles {
            private_count: files.len(),
            error: ErrorView::Network(
                "No downloadable files found. This archive may only contain private or restricted files. Try again with --username and --password (or --password-stdin)."@,
            ),
        }),
{
    let entries = entries_of(files, urls_of(files, run.stage->base_url));
    let plan = plan_of(entries, false);
    plan_accounts_for_every_file(entries, false);
    if plan.downloads.len() > 0 {
        private_files_need_authentication(entries, 0);
        let entry = choose|entry: Entry|
            #![trigger entries.contains(entry)]
            entries.contains(entry) && !entry.0.is_private() && download_of(entry)
                == plan.downloads[0];
        let k = choose|k: int| 0 <= k < entries.len() && entries[k] == entry;
        assert(files[k].is_private());
    }
}

/// The answer to a login: the session cookie comes from the `Set-Cookie` headers of the reply, and
/// from nothing else.
pub fn login_answer(
    status: Status,
    headers: &HeaderMap<HeaderValue>,
    payload: LoginResponse,
) -> (r: Event)
    ensures
        r.deep_view() == (EventView::LoginReply {
            code: status.deep_view(),
            session_cookie: cookie_header_of(
                values_under(header_values(*headers), "set-cookie"@),
            ),
            payload: payload.deep_view(),
        }),
{
    Event::LoginReply { status, session_cookie: extract_cookie_header(headers), payload }
}

impl Stage {
    /// The stage after a token reply.
    fn after_token(credentials: &(String, String), payload: LoginTokenResponse) -> (r: Stage)
        ensures
            r.deep_view() == StageView::after_token(credentials.deep_view(), payload.deep_view()),
    {
        match csrf_token(payload) {
            Ok(token) => Stage::SubmitLogin {
                request: login_request(credentials.0.as_str(), credentials.1.as_str(), token),
            },
            Err(error) => Stage::LoginFailed { error },
        }
    }

    /// The stage after a login that came to the given session.
    fn after_login(session: Result<String, IaGetError>) -> (r: Stage)
        ensures
            r.deep_view() == StageView::after_login(outcome(session)),
    {
        match session {
            Ok(cookie) => match client_settings(Some(cookie.as_str())) {
                Ok(settings) => Stage::Reconnect { settings },
                Err(error) => Stage::Failed { error },
            },
            Err(error) => Stage::LoginFailed { error },
        }
    }

    /// The stage after the files list was found accessible.
    fn after_metadata_check(xml_url: String, base: Result<String, IaGetError>) -> (r: Stage)
        ensures
            r.deep_view() == StageView::after_metadata_check(xml_url@, outcome(base)),
    {
        match base {
            Ok(base_url) => Stage::FetchMetadata { xml_url, base_url },
            Err(error) => Stage::Failed { error },
        }
    }

    /// The stage after the downloads were planned.
    fn after_planning(plan: DownloadPlan) -> (r: Stage)
        ensures
            r.deep_view() == StageView::after_planning(plan.deep_view()),
    {
        if plan.downloads.len() > 0 {
            Stage::Download { plan }
        } else {
            Stage::NoFiles {
                private_count: plan.private_count,
                error: no_downloads_error(&plan),
            }
        }
    }
}

impl Run {
    #[verifier::type_invariant]
    closed spec fn is_consistent(self) -> bool {
        self.deep_view().consistent()
    }

    /// A run for what the command line says. `stdin_line` is the line that was read from stdin
    /// where the flags ask for one.
    pub fn start(cli: &Cli, stdin_line: Option<String>) -> (r: Result<Run, IaGetError>)
        requires
            cli.deep_view().reads_stdin() ==> stdin_line is Some,
        ensures
            outcome(r) == match cli.deep_view().credentials(stdin_line.deep_view()) {
                Ok(credentials) => Ok(RunView::fresh(cli.deep_view().url, credentials)),
                Err(error) => Err(error),
            },
    {
        match resolve_auth_credentials(cli, stdin_line) {
            Ok(credentials) => Ok(
                Run { url: cli.url.clone(), credentials, stage: Stage::ValidateUrl },
            ),
            Err(error) => Err(error),
        }
    }

    /// Takes the answer to the action that the run asks for.
    pub fn step(self, event: Event) -> (r: Run)
        ensures
            r.deep_view() == self.deep_view().next(event.deep_view()),
            r.deep_view().consistent(),
    {
        proof {
            use_type_invariant(&self);
            next_keeps_consistent(self.deep_view(), event.deep_view());
        }
        let Run { url, credentials, stage } = self;
        let next: Stage = match (stage, event) {
            (Stage::ValidateUrl, Event::UrlValid) => Stage::Bootstrap {
                settings: ClientSettings::with_cookie(None),
            },
            (Stage::Bootstrap { .. }, Event::ClientReady) => match &credentials {
                Some(_) => Stage::RequestToken,
                None => Stage::CheckItem,
            },
            (Stage::RequestToken, Event::Token(payload)) => match &credentials {
                Some(pair) => Stage::after_token(pair, payload),
                None => Stage::RequestToken,
            },
            (
                Stage::SubmitLogin { .. },
                Event::LoginReply { status, session_cookie, payload },
            ) => Stage::after_login(login_session(status, &payload, session_cookie)),
            (Stage::Reconnect { .. }, Event::ClientReady) => Stage::CheckItem,
            (Stage::CheckItem, Event::Accessible) => Stage::CheckMetadata {
                xml_url: get_xml_url(url.as_str()),
            },
            (Stage::CheckMetadata { xml_url }, Event::Accessible) => {
                let base: Result<String, IaGetError> = files_base_url(xml_url.as_str());
                Stage::after_metadata_check(xml_url, base)
            },
            (Stage::FetchMetadata { base_url, .. }, Event::Metadata(files)) => {
                Stage::after_planning(
                    plan_downloads(files, base_url.as_str(), credentials.is_some()),
                )
            },
            (Stage::Download { .. }, Event::Downloaded) => Stage::Finished,
            (stage, _) => stage,
        };
        Run { url, credentials, stage: next }
    }

    /// What the run asks for.
    pub fn action<'a>(&'a self) -> (r: Action<'a>)
        ensures
            r.deep_view() == self.deep_view().action(),
            self.deep_view().consistent(),
    {
        proof {
            use_type_invariant(self);
        }
        match &self.stage {
            Stage::ValidateUrl => Action::ValidateUrl { url: self.url.as_str() },
            Stage::Bootstrap { settings } => Action::BuildClient { settings },
            Stage::RequestToken => Action::GetLoginToken {
                url: LOGIN_API_URL,
                timeout_secs: REQUEST_TIMEOUT_SECS,
            },
            Stage::SubmitLogin { request } => Action::PostLogin {
                url: LOGIN_API_URL,
                timeout_secs: REQUEST_TIMEOUT_SECS,
                request,
            },
            Stage::Reconnect { settings } => Action::BuildClient { settings },
            Stage::CheckItem => Action::CheckItem {
                url: self.url.as_str(),
                timeout_secs: REQUEST_TIMEOUT_SECS,
            },
            Stage::CheckMetadata { xml_url } => Action::CheckMetadata {
                url: xml_url.as_str(),
                timeout_secs: REQUEST_TIMEOUT_SECS,
            },
            Stage::FetchMetadata { xml_url, .. } => Action::FetchMetadata {
                url: xml_url.as_str(),
            },
            Stage::Download { plan } => Action::Download {
                plan,
                authenticated: self.credentials.is_some(),
            },
            Stage::NoFiles { private_count, error } => Action::ReportNoFiles {
                private_count: *private_count,
                error,
            },
            Stage::LoginFailed { error } => Action::ReportFailedLogin { error },
            Stage::Failed { error } => Action::Fail { error },
            Stage::Finished => Action::Finish,
        }
    }
}

} // verus!
