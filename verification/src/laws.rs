//! What a run does at each step, and from end to end.
#[allow(unused_imports)]
use crate::error::ErrorView;
#[allow(unused_imports)]
use crate::http::{is_header_value, joined_url, parsed_url, status_text};
#[allow(unused_imports)]
use crate::login::{LoginRequestView, LoginResponseView, LoginTokenResponseView};
#[allow(unused_imports)]
use crate::metadata::details_url_leads_to_files_list;
#[allow(unused_imports)]
use crate::plan::{
    authentication_gives_access_to_every_file, download_of, entries_of, open_files_are_downloaded,
    plan_accounts_for_every_file, plan_of, private_files_need_authentication, urls_of, Entry,
    ListedFileView,
};
#[allow(unused_imports)]
use crate::run::{Action, ActionView, Event, EventView, RunView, StageView};
use vstd::prelude::*;

verus! {

/// The views of the events hold all that they say.
pub proof fn events_are_seen_whole(event: Event)
    ensures
        event is UrlValid <==> event.deep_view() is UrlValid,
        event is ClientReady <==> event.deep_view() is ClientReady,
        event is Accessible <==> event.deep_view() is Accessible,
        event is Downloaded <==> event.deep_view() is Downloaded,
        event matches Event::Token(payload) ==> event.deep_view() == EventView::Token(
            payload.deep_view(),
        ),
        event matches Event::LoginReply { status, session_cookie, payload } ==> {
            &&& event.deep_view() matches EventView::LoginReply {
                code,
                session_cookie: cookie,
                payload: seen,
            }
            &&& code == status.deep_view()
            &&& cookie is Some <==> session_cookie is Some
            &&& session_cookie matches Some(text) ==> cookie->0 == text@
            &&& seen == payload.deep_view()
        },
        event matches Event::Metadata(files) ==> {
            &&& event.deep_view() matches EventView::Metadata(seen)
            &&& seen.len() == files.len()
            &&& forall|i: int|
                0 <= i < files.len() ==> #[trigger] seen[i] == files[i].deep_view()
        },
{
}

/// The views of the actions hold all that they ask for.
pub proof fn actions_are_seen_whole(action: Action)
    ensures
        action matches Action::ValidateUrl { url } ==> action.deep_view() == (
        ActionView::ValidateUrl { url: url@ }),
        action matches Action::BuildClient { settings } ==> action.deep_view() == (
        ActionView::BuildClient { settings: settings.deep_view() }),
        action matches Action::GetLoginToken { url, timeout_secs } ==> action.deep_view() == (
        ActionView::GetLoginToken { url: url@, timeout_secs }),
        action matches Action::PostLogin { url, timeout_secs, request } ==> action.deep_view() == (
        ActionView::PostLogin { url: url@, timeout_secs, request: request.deep_view() }),
        action matches Action::CheckItem { url, timeout_secs } ==> action.deep_view() == (
        ActionView::CheckItem { url: url@, timeout_secs }),
        action matches Action::CheckMetadata { url, timeout_secs } ==> action.deep_view() == (
        ActionView::CheckMetadata { url: url@, timeout_secs }),
        action matches Action::FetchMetadata { url } ==> action.deep_view() == (
        ActionView::FetchMetadata { url: url@ }),
        action matches Action::Download { plan, authenticated } ==> action.deep_view() == (
        ActionView::Download { plan: plan.deep_view(), authenticated }),
        action matches Action::ReportNoFiles { private_count, error } ==> action.deep_view() == (
        ActionView::ReportNoFiles {
            private_count: private_count as nat,
            error: error.deep_view(),
        }),
        action matches Action::ReportFailedLogin { error } ==> action.deep_view() == (
        ActionView::ReportFailedLogin { error: error.deep_view() }),
        action matches Action::Fail { error } ==> action.deep_view() == (ActionView::Fail {
            error: error.deep_view(),
        }),
        action is Finish <==> action.deep_view() is Finish,
{
}

/// A run starts by having its URL validated, as it was given, and a valid URL leads to a client
/// without a session.
pub proof fn runs_start_with_the_url(
    url: Seq<char>,
    credentials: Option<(Seq<char>, Seq<char>)>,
)
    ensures
        RunView::fresh(url, credentials).url == url,
        RunView::fresh(url, credentials).credentials == credentials,
        RunView::fresh(url, credentials).action() == (ActionView::ValidateUrl { url }),
        RunView::fresh(url, credentials).next(
            EventView::UrlValid,
        ).action() matches ActionView::BuildClient { settings } && {
            &&& settings.connect_timeout_secs == 600
            &&& settings.pool_idle_timeout_secs == 90
            &&& settings.pool_max_idle_per_host == 1
            &&& settings.tcp_keepalive_secs == 60
            &&& settings.cookie is None
        },
        RunView::fresh(url, credentials).next(EventView::UrlValid).stage is Bootstrap,
{
}

/// Once the first client is built, a run with credentials asks for a login token, and a run without
/// checks its item. A client with a session leads to the item as well.
pub proof fn clients_lead_on(run: RunView)
    ensures
        run.stage is Bootstrap && run.credentials is Some ==> {
            &&& run.next(EventView::ClientReady) == run.at(StageView::RequestToken)
            &&& run.next(EventView::ClientReady).action() == (ActionView::GetLoginToken {
                url: "https://archive.org/services/account/login/"@,
                timeout_secs: 60,
            })
        },
        run.stage is Bootstrap && run.credentials is None || run.stage is Reconnect ==> {
            &&& run.next(EventView::ClientReady) == run.at(StageView::CheckItem)
            &&& run.next(EventView::ClientReady).action() == (ActionView::CheckItem {
                url: run.url,
                timeout_secs: 60,
            })
        },
{
}

/// A token that is granted leads to the login, which sends the credentials and the token just as
/// they are to the login endpoint.
pub proof fn granted_token_leads_to_the_login(
    run: RunView,
    username: Seq<char>,
    password: Seq<char>,
    payload: LoginTokenResponseView,
    token: Seq<char>,
)
    requires
        run.stage is RequestToken,
        run.credentials == Some((username, password)),
        payload.success,
        payload.token == Some(token),
    ensures
        run.next(EventView::Token(payload)).stage is SubmitLogin,
        run.next(EventView::Token(payload)).action() == (ActionView::PostLogin {
            url: "https://archive.org/services/account/login/"@,
            timeout_secs: 60,
            request: LoginRequestView { username, password, remember: "false"@, t: token },
        }),
{
}

/// A login that succeeds leads to a client that sends the session cookie byte for byte.
pub proof fn accepted_login_leads_to_a_client(
    run: RunView,
    code: u16,
    cookie: Seq<char>,
    payload: LoginResponseView,
)
    requires
        run.stage is SubmitLogin,
        200 <= code < 300,
        payload.success,
        is_header_value(cookie),
    ensures
        ({
            let reply = EventView::LoginReply { code, session_cookie: Some(cookie), payload };
            &&& run.next(reply).stage is Reconnect
            &&& run.next(reply).action() matches ActionView::BuildClient { settings }
            &&& settings.connect_timeout_secs == 600
            &&& settings.pool_idle_timeout_secs == 90
            &&& settings.pool_max_idle_per_host == 1
            &&& settings.tcp_keepalive_secs == 60
            &&& settings.cookie == Some(vstd::utf8::encode_utf8(cookie))
        }),
{
}

/// A session cookie that no header can carry ends the run.
pub proof fn cookie_that_cannot_be_sent_ends_the_run(
    run: RunView,
    code: u16,
    cookie: Seq<char>,
    payload: LoginResponseView,
)
    requires
        run.stage is SubmitLogin,
        200 <= code < 300,
        payload.success,
        !is_header_value(cookie),
    ensures
        run.next(
            EventView::LoginReply { code, session_cookie: Some(cookie), payload },
        ).action() == (ActionView::Fail {
            error: ErrorView::Network(
                "Invalid auth cookie value: "@ + "failed to parse header value"@,
            ),
        }),
{
}

/// A login that is refused ends the run: over the token with the words of the token reply, over the
/// login with status and reason, without cookies by saying that they are missing.
pub proof fn refused_logins_end_the_run(
    run: RunView,
    token: LoginTokenResponseView,
    code: u16,
    session_cookie: Option<Seq<char>>,
    payload: LoginResponseView,
)
    ensures
        run.stage is RequestToken && !token.success ==> run.next(
            EventView::Token(token),
        ).action() == (ActionView::ReportFailedLogin {
            error: ErrorView::Network(
                "Failed to obtain login token: "@ + match token.error {
                    Some(error) => error,
                    None => "Unknown token response error"@,
                },
            ),
        }),
        run.stage is RequestToken && token.success && token.token is None ==> run.next(
            EventView::Token(token),
        ).action() == (ActionView::ReportFailedLogin {
            error: ErrorView::Network("Login token missing from response"@),
        }),
        run.stage is SubmitLogin && (code < 200 || 300 <= code || !payload.success) ==> run.next(
            EventView::LoginReply { code, session_cookie, payload },
        ).action() == (ActionView::ReportFailedLogin {
            error: ErrorView::Network(
                "Authentication failed (HTTP "@ + status_text(code) + "): "@ + payload.reason(),
            ),
        }),
        run.stage is SubmitLogin && 200 <= code < 300 && payload.success && session_cookie
            is None ==> run.next(
            EventView::LoginReply { code, session_cookie, payload },
        ).action() == (ActionView::ReportFailedLogin {
            error: ErrorView::Network(
                "Authentication succeeded but archive.org did not return session cookies."@,
            ),
        }),
{
}

/// An item that is accessible leads to its files list, in the download directory of the item.
pub proof fn accessible_item_leads_to_its_files_list(
    run: RunView,
    id: Seq<char>,
    slashes: Seq<char>,
)
    requires
        run.stage is CheckItem,
        id.len() > 0,
        !id.contains('/'),
        forall|i: int| 0 <= i < slashes.len() ==> #[trigger] slashes[i] == '/',
        run.url == "https://archive.org/details/"@ + id + slashes,
    ensures
        ({
            let list = "https://archive.org/download/"@ + id + "/"@ + id + "_files.xml"@;
            &&& run.next(EventView::Accessible) == run.at(
                StageView::CheckMetadata { xml_url: list },
            )
            &&& run.next(EventView::Accessible).action() == (ActionView::CheckMetadata {
                url: list,
                timeout_secs: 60,
            })
        }),
{
    details_url_leads_to_files_list(id, slashes);
}

/// A files list that is accessible is fetched, and its URL is the base URL of the files; where the
/// URL does not parse the run fails with the parser's words.
pub proof fn accessible_files_list_is_fetched(
    run: RunView,
    xml_url: Seq<char>,
    base_url: Seq<char>,
    complaint: Seq<char>,
)
    requires
        run.stage == (StageView::CheckMetadata { xml_url }),
    ensures
        parsed_url(xml_url) == Ok::<Seq<char>, Seq<char>>(base_url) ==> {
            &&& run.next(EventView::Accessible) == run.at(
                StageView::FetchMetadata { xml_url, base_url },
            )
            &&& run.next(EventView::Accessible).action() == (ActionView::FetchMetadata {
                url: xml_url,
            })
        },
        parsed_url(xml_url) == Err::<Seq<char>, Seq<char>>(complaint) ==> run.next(
            EventView::Accessible,
        ).action() == (ActionView::Fail { error: ErrorView::UrlParse(complaint) }),
{
}

/// Once the files list is read, every file that may be taken is downloaded: one that is not
/// private, or any where credentials were given. However many others are left out, the run asks
/// for the download, and the file is in it with the URL that its complete name joins to, its name
/// on disk and its hash.
pub proof fn files_that_may_be_taken_are_downloaded(
    run: RunView,
    files: Seq<ListedFileView>,
    k: int,
)
    requires
        run.stage is FetchMetadata,
        0 <= k < files.len(),
        run.credentials is Some || !files[k].is_private(),
    ensures
        ({
            let base_url = run.stage->base_url;
            let next = run.next(EventView::Metadata(files));
            &&& next.stage is Download
            &&& next.action() matches ActionView::Download { plan, authenticated }
            &&& authenticated == run.credentials is Some
            &&& plan.downloads.contains(
                (
                    match joined_url(base_url, files[k].name) {
                        Some(url) => url,
                        None => base_url,
                    },
                    files[k].sanitized_name,
                    files[k].md5,
                ),
            )
            &&& plan.downloads.len() + plan.private_count == files.len()
            &&& plan == plan_of(
                entries_of(files, urls_of(files, base_url)),
                run.credentials is Some,
            )
        }),
{
    let entries = entries_of(files, urls_of(files, run.stage->base_url));
    let authenticated = run.credentials is Some;
    plan_accounts_for_every_file(entries, authenticated);
    let downloads = plan_of(entries, authenticated).downloads;
    if authenticated {
        authentication_gives_access_to_every_file(entries);
        assert(downloads[k] == download_of(entries[k]));
    } else {
        open_files_are_downloaded(entries, false, k);
    }
    assert(downloads.contains(download_of(entries[k])));
}

/// The run says that there are no files exactly where none may be taken: the list is empty, or all
/// of it is private and no credentials were given. It then counts all the private files, and asks
/// for credentials if there are any.
pub proof fn no_files_means_none_may_be_taken(run: RunView, files: Seq<ListedFileView>)
    requires
        run.stage is FetchMetadata,
    ensures
        run.next(EventView::Metadata(files)).action() is ReportNoFiles <==> (forall|k: int|
            0 <= k < files.len() ==> run.credentials is None && (#[trigger] files[k]).is_private()),
        run.next(EventView::Metadata(files)).action() is ReportNoFiles || run.next(
            EventView::Metadata(files),
        ).action() is Download,
        run.next(EventView::Metadata(files)).action() is ReportNoFiles ==> run.next(
            EventView::Metadata(files),
        ).action() == (ActionView::ReportNoFiles {
            private_count: files.len(),
            error: ErrorView::Network(
                if files.len() > 0 {
                    "No downloadable files found. This archive may only contain private or restricted files. Try again with --username and --password (or --password-stdin)."@
                } else {
                    "No downloadable files found in archive metadata."@
                },
            ),
        }),
{
    let entries = entries_of(files, urls_of(files, run.stage->base_url));
    let authenticated = run.credentials is Some;
    let plan = plan_of(entries, authenticated);
    plan_accounts_for_every_file(entries, authenticated);
    if plan.downloads.len() == 0 {
        assert forall|k: int| 0 <= k < files.len() implies run.credentials is None && (
        #[trigger] files[k]).is_private() by {
            if run.credentials is Some || !files[k].is_private() {
                files_that_may_be_taken_are_downloaded(run, files, k);
            }
        }
    } else if forall|k: int|
        0 <= k < files.len() ==> run.credentials is None && (#[trigger] files[k]).is_private() {
        assert(files.len() > 0);
        assert(files[0].is_private());
        private_files_need_authentication(entries, 0);
        let entry = choose|entry: Entry|
            #![trigger entries.contains(entry)]
            entries.contains(entry) && !entry.0.is_private() && download_of(entry)
                == plan.downloads[0];
        let k = choose|k: int| 0 <= k < entries.len() && entries[k] == entry;
        assert(files[k].is_private());
    }
}

/// Files that were downloaded end the run well.
pub proof fn downloads_finish_the_run(run: RunView)
    requires
        run.stage is Download,
    ensures
        run.next(EventView::Downloaded) == run.at(StageView::Finished),
        run.next(EventView::Downloaded).action() is Finish,
{
}

/// What a run asks for at each stage is what the stage holds.
pub proof fn actions_ask_for_what_the_stage_holds(run: RunView)
    ensures
        match run.stage {
            StageView::ValidateUrl => run.action() == (ActionView::ValidateUrl { url: run.url }),
            StageView::Bootstrap { settings } => run.action() == (ActionView::BuildClient {
                settings,
            }),
            StageView::RequestToken => run.action() == (ActionView::GetLoginToken {
                url: "https://archive.org/services/account/login/"@,
                timeout_secs: 60,
            }),
            StageView::SubmitLogin { request } => run.action() == (ActionView::PostLogin {
                url: "https://archive.org/services/account/login/"@,
                timeout_secs: 60,
                request,
            }),
            StageView::Reconnect { settings } => run.action() == (ActionView::BuildClient {
                settings,
            }),
            StageView::CheckItem => run.action() == (ActionView::CheckItem {
                url: run.url,
                timeout_secs: 60,
            }),
            StageView::CheckMetadata { xml_url } => run.action() == (ActionView::CheckMetadata {
                url: xml_url,
                timeout_secs: 60,
            }),
            StageView::FetchMetadata { xml_url, .. } => run.action() == (
            ActionView::FetchMetadata { url: xml_url }),
            StageView::Download { plan } => run.action() == (ActionView::Download {
                plan,
                authenticated: run.credentials is Some,
            }),
            StageView::NoFiles { private_count, error } => run.action() == (
            ActionView::ReportNoFiles { private_count, error }),
            StageView::LoginFailed { error } => run.action() == (ActionView::ReportFailedLogin {
                error,
            }),
            StageView::Failed { error } => run.action() == (ActionView::Fail { error }),
            StageView::Finished => run.action() is Finish,
        },
{
}

/// An event that does not answer what the run asks for changes nothing.
pub proof fn events_out_of_turn_change_nothing(run: RunView, event: EventView)
    requires
        run.action() is ValidateUrl ==> !(event is UrlValid),
        run.action() is BuildClient ==> !(event is ClientReady),
        run.action() is GetLoginToken ==> !(event is Token),
        run.action() is PostLogin ==> !(event is LoginReply),
        run.action() is CheckItem || run.action() is CheckMetadata ==> !(event is Accessible),
        run.action() is FetchMetadata ==> !(event is Metadata),
        run.action() is Download ==> !(event is Downloaded),
    ensures
        run.next(event) == run,
{
}

/// The events of a run take effect one after the other, and none is lost.
pub proof fn events_take_effect_in_order(
    run: RunView,
    first: Seq<EventView>,
    event: EventView,
)
    ensures
        run.after(Seq::empty()) == run,
        run.after(first.push(event)) == run.after(first).next(event),
{
    assert(first.push(event).drop_last() == first);
}

/// A run without credentials, from end to end: where the URL is valid, item and files list are
/// accessible and the list is read, every listed file that is not private is downloaded.
pub proof fn open_run_downloads_every_open_file(
    id: Seq<char>,
    slashes: Seq<char>,
    base_url: Seq<char>,
    files: Seq<ListedFileView>,
    k: int,
)
    requires
        id.len() > 0,
        !id.contains('/'),
        forall|i: int| 0 <= i < slashes.len() ==> #[trigger] slashes[i] == '/',
        0 <= k < files.len(),
        !files[k].is_private(),
    ensures
        parsed_url("https://archive.org/download/"@ + id + "/"@ + id + "_files.xml"@) == Ok::<
            Seq<char>,
            Seq<char>,
        >(base_url) ==> {
            let run = RunView::fresh("https://archive.org/details/"@ + id + slashes, None).next(
                EventView::UrlValid,
            ).next(EventView::ClientReady).next(EventView::Accessible).next(
                EventView::Accessible,
            ).next(EventView::Metadata(files));
            &&& run.action() matches ActionView::Download { plan, authenticated }
            &&& !authenticated
            &&& plan.downloads.contains(
                (
                    match joined_url(base_url, files[k].name) {
                        Some(url) => url,
                        None => base_url,
                    },
                    files[k].sanitized_name,
                    files[k].md5,
                ),
            )
        },
{
    let list = "https://archive.org/download/"@ + id + "/"@ + id + "_files.xml"@;
    if parsed_url(list) == Ok::<Seq<char>, Seq<char>>(base_url) {
        let checked = RunView::fresh("https://archive.org/details/"@ + id + slashes, None).next(
            EventView::UrlValid,
        ).next(EventView::ClientReady);
        accessible_item_leads_to_its_files_list(checked, id, slashes);
        let listed = checked.next(EventView::Accessible);
        accessible_files_list_is_fetched(listed, list, base_url, Seq::empty());
        files_that_may_be_taken_are_downloaded(listed.next(EventView::Accessible), files, k);
    }
}

/// A run with credentials, from end to end: where a token is granted and the login succeeds with a
/// cookie that can be sent, every listed file is downloaded, private or not.
pub proof fn authenticated_run_downloads_every_file(
    id: Seq<char>,
    slashes: Seq<char>,
    credentials: (Seq<char>, Seq<char>),
    token: LoginTokenResponseView,
    code: u16,
    cookie: Seq<char>,
    payload: LoginResponseView,
    base_url: Seq<char>,
    files: Seq<ListedFileView>,
    k: int,
)
    requires
        id.len() > 0,
        !id.contains('/'),
        forall|i: int| 0 <= i < slashes.len() ==> #[trigger] slashes[i] == '/',
        token.success,
        token.token is Some,
        200 <= code < 300,
        payload.success,
        is_header_value(cookie),
        0 <= k < files.len(),
    ensures
        parsed_url("https://archive.org/download/"@ + id + "/"@ + id + "_files.xml"@) == Ok::<
            Seq<char>,
            Seq<char>,
        >(base_url) ==> {
            let run = RunView::fresh(
                "https://archive.org/details/"@ + id + slashes,
                Some(credentials),
            ).next(EventView::UrlValid).next(EventView::ClientReady).next(
                EventView::Token(token),
            ).next(
                EventView::LoginReply { code, session_cookie: Some(cookie), payload },
            ).next(EventView::ClientReady).next(EventView::Accessible).next(
                EventView::Accessible,
            ).next(EventView::Metadata(files));
            &&& run.action() matches ActionView::Download { plan, authenticated }
            &&& authenticated
            &&& plan.private_count == 0
            &&& plan.downloads.len() == files.len()
            &&& plan.downloads[k] == (
                match joined_url(base_url, files[k].name) {
                    Some(url) => url,
                    None => base_url,
                },
                files[k].sanitized_name,
                files[k].md5,
            )
        },
{
    let list = "https://archive.org/download/"@ + id + "/"@ + id + "_files.xml"@;
    if parsed_url(list) == Ok::<Seq<char>, Seq<char>>(base_url) {
        let checked = RunView::fresh(
            "https://archive.org/details/"@ + id + slashes,
            Some(credentials),
        ).next(EventView::UrlValid).next(EventView::ClientReady).next(
            EventView::Token(token),
        ).next(EventView::LoginReply { code, session_cookie: Some(cookie), payload }).next(
            EventView::ClientReady,
        );
        accessible_item_leads_to_its_files_list(checked, id, slashes);
        let listed = checked.next(EventView::Accessible);
        accessible_files_list_is_fetched(listed, list, base_url, Seq::empty());
        let fetched = listed.next(EventView::Accessible);
        files_that_may_be_taken_are_downloaded(fetched, files, k);
        authentication_gives_access_to_every_file(
            entries_of(files, urls_of(files, base_url)),
        );
    }
}

} // verus!
