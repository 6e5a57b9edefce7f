//! The credentials that the command line gives.
use crate::error::IaGetError;
use crate::text::trim_trailing_newlines;
#[allow(unused_imports)]
use crate::error::{outcome, ErrorView};
#[allow(unused_imports)]
use crate::text::{
    is_white_space, line_break, secrets_lose_their_line_end_alone, trim_end,
    trim_end_is_the_prefix, trimmed, trimming_empties_white_space_alone,
};
use vstd::prelude::*;

verus! {

/// What the command line says.
#[derive(Debug, PartialEq, Eq)]
pub struct Cli {
    /// URL to an archive.org details page.
    pub url: String,
    /// Archive.org username or email for authenticated downloads.
    pub username: Option<String>,
    /// Archive.org password.
    pub password: Option<String>,
    /// Whether the password is to be read from stdin.
    pub password_stdin: bool,
}

/// A [`Cli`] as plain text.
pub struct CliView {
    pub url: Seq<char>,
    pub username: Option<Seq<char>>,
    pub password: Option<Seq<char>>,
    pub password_stdin: bool,
}

impl DeepView for Cli {
    type V = CliView;

    open spec fn deep_view(&self) -> CliView {
        CliView {
            url: self.url@,
            username: self.username.deep_view(),
            password: self.password.deep_view(),
            password_stdin: self.password_stdin,
        }
    }
}

/// Whether a text holds nothing but white space.
pub open spec fn is_blank(text: Seq<char>) -> bool {
    trimmed(text).len() == 0
}

impl CliView {
    /// Whether the password has to be read from stdin: a username is given, no password is, and
    /// the flag for stdin is set.
    pub open spec fn reads_stdin(self) -> bool {
        &&& self.username matches Some(username) && !is_blank(username)
        &&& self.password is None
        &&& self.password_stdin
    }

    /// The password that applies: the given one, or else the line from stdin without the line
    /// break at its end.
    pub open spec fn chosen_password(self, stdin_line: Option<Seq<char>>) -> Option<Seq<char>> {
        if self.password is Some {
            self.password
        } else if self.password_stdin {
            Some(trim_end(stdin_line->0, line_break()))
        } else {
            None
        }
    }

    /// The credentials: none where no username is given, an error where the username is blank,
    /// where no password applies or where the password is empty.
    pub open spec fn credentials(self, stdin_line: Option<Seq<char>>) -> Result<
        Option<(Seq<char>, Seq<char>)>,
        ErrorView,
    > {
        match (self.username, self.chosen_password(stdin_line)) {
            (None, _) => Ok(None),
            (Some(username), password) => if is_blank(username) {
                Err(ErrorView::Network("Authentication username cannot be empty."@))
            } else {
                match password {
                    None => Err(
                        ErrorView::Network(
                            "Authentication requires --password or --password-stdin when --username is set."@,
                        ),
                    ),
                    Some(password) => if password.len() == 0 {
                        Err(ErrorView::Network("Authentication password cannot be empty."@))
                    } else {
                        Ok(Some((username, password)))
                    },
                }
            },
        }
    }
}

/// Whether resolving the credentials takes a line from stdin.
pub fn reads_password_from_stdin(cli: &Cli) -> (r: bool)
    ensures
        r == cli.deep_view().reads_stdin(),
{
    match &cli.username {
        None => false,
        Some(username) => !username.as_str().trim().is_empty() && cli.password.is_none()
            && cli.password_stdin,
    }
}

/// Resolves optional authentication credentials from CLI flags. `stdin_line` is the line that was
/// read from stdin where the flags ask for one.
pub fn resolve_auth_credentials(cli: &Cli, stdin_line: Option<String>) -> (r: Result<
    Option<(String, String)>,
    IaGetError,
>)
    requires
        cli.deep_view().reads_stdin() ==> stdin_line is Some,
    ensures
        outcome(r) == cli.deep_view().credentials(stdin_line.deep_view()),
{
    let username: &String = match &cli.username {
        None => {
            return Ok(None);
        },
        Some(username) => username,
    };

    if username.as_str().trim().is_empty() {
        return Err(IaGetError::network("Authentication username cannot be empty."));
    }

    let password: String = match &cli.password {
        Some(password) => password.clone(),
        None => {
            if !cli.password_stdin {
                return Err(
                    IaGetError::network(
                        "Authentication requires --password or --password-stdin when --username is set.",
                    ),
                );
            }
            trim_trailing_newlines(stdin_line.unwrap())
        },
    };

    if password.as_str().is_empty() {
        return Err(IaGetError::network("Authentication password cannot be empty."));
    }

    Ok(Some((username.clone(), password)))
}

/// A password read from stdin, with any line breaks after it, gives the same credentials as the
/// same password on the command line.
pub proof fn stdin_password_equals_flag_password(
    cli: CliView,
    password: Seq<char>,
    line_end: Seq<char>,
)
    requires
        password.len() > 0 ==> !line_break()(password.last()),
        forall|i: int| 0 <= i < line_end.len() ==> line_break()(#[trigger] line_end[i]),
    ensures
        (CliView { password: None, password_stdin: true, ..cli }).credentials(
            Some(password + line_end),
        ) == (CliView { password: Some(password), password_stdin: false, ..cli }).credentials(None),
{
    let line = password + line_end;
    assert forall|i: int| password.len() <= i < line.len() implies line_break()(
        #[trigger] line[i],
    ) by {
        assert(line[i] == line_end[i - password.len()]);
    }
    trim_end_is_the_prefix(line, line_break(), password.len() as int);
    assert(line.take(password.len() as int) == password);
}

/// The view of the command line holds all that it says.
pub proof fn command_line_is_seen_whole(cli: Cli)
    ensures
        cli.deep_view().url == cli.url@,
        cli.deep_view().username is Some <==> cli.username is Some,
        cli.username matches Some(username) ==> cli.deep_view().username->0 == username@,
        cli.deep_view().password is Some <==> cli.password is Some,
        cli.password matches Some(password) ==> cli.deep_view().password->0 == password@,
        cli.deep_view().password_stdin == cli.password_stdin,
{
}

/// A password on the command line is used just as it is given: with a username that holds more
/// than white space, the credentials are the two as given, whatever stdin is set to.
pub proof fn given_password_is_used_unchanged(
    cli: CliView,
    username: Seq<char>,
    password: Seq<char>,
    stdin_line: Option<Seq<char>>,
)
    requires
        cli.username == Some(username),
        exists|i: int| 0 <= i < username.len() && !is_white_space(#[trigger] username[i]),
        cli.password == Some(password),
        password.len() > 0,
    ensures
        cli.credentials(stdin_line) == Ok::<_, ErrorView>(Some((username, password))),
{
    trimming_empties_white_space_alone(username);
}

/// A password from stdin is used just as it is written, up to the line breaks at its end.
pub proof fn stdin_password_is_used_unchanged(
    cli: CliView,
    username: Seq<char>,
    password: Seq<char>,
    line_end: Seq<char>,
)
    requires
        cli.username == Some(username),
        exists|i: int| 0 <= i < username.len() && !is_white_space(#[trigger] username[i]),
        cli.password is None,
        cli.password_stdin,
        password.len() > 0,
        password.last() != '\n',
        password.last() != '\r',
        forall|i: int|
            0 <= i < line_end.len() ==> #[trigger] line_end[i] == '\n' || line_end[i] == '\r',
    ensures
        cli.credentials(Some(password + line_end)) == Ok::<_, ErrorView>(
            Some((username, password)),
        ),
{
    trimming_empties_white_space_alone(username);
    secrets_lose_their_line_end_alone(password, line_end);
}

/// A username of white space alone is refused, whatever else is given.
pub proof fn blank_username_is_refused(
    cli: CliView,
    username: Seq<char>,
    stdin_line: Option<Seq<char>>,
)
    requires
        cli.username == Some(username),
        forall|i: int| 0 <= i < username.len() ==> is_white_space(#[trigger] username[i]),
    ensures
        cli.credentials(stdin_line) == Err::<Option<(Seq<char>, Seq<char>)>, _>(
            ErrorView::Network("Authentication username cannot be empty."@),
        ),
{
    trimming_empties_white_space_alone(username);
}

/// A username without a password is refused, and so is an empty password, from the command line or
/// from stdin.
pub proof fn missing_password_is_refused(
    cli: CliView,
    username: Seq<char>,
    line_end: Seq<char>,
    stdin_line: Option<Seq<char>>,
)
    requires
        cli.username == Some(username),
        exists|i: int| 0 <= i < username.len() && !is_white_space(#[trigger] username[i]),
        forall|i: int|
            0 <= i < line_end.len() ==> #[trigger] line_end[i] == '\n' || line_end[i] == '\r',
    ensures
        cli.password is None && !cli.password_stdin ==> cli.credentials(stdin_line) == Err::<
            Option<(Seq<char>, Seq<char>)>,
            _,
        >(
            ErrorView::Network(
                "Authentication requires --password or --password-stdin when --username is set."@,
            ),
        ),
        cli.password == Some(Seq::<char>::empty()) ==> cli.credentials(stdin_line) == Err::<
            Option<(Seq<char>, Seq<char>)>,
            _,
        >(ErrorView::Network("Authentication password cannot be empty."@)),
        cli.password is None && cli.password_stdin ==> cli.credentials(Some(line_end)) == Err::<
            Option<(Seq<char>, Seq<char>)>,
            _,
        >(ErrorView::Network("Authentication password cannot be empty."@)),
{
    trimming_empties_white_space_alone(username);
    secrets_lose_their_line_end_alone(Seq::empty(), line_end);
    assert(Seq::<char>::empty() + line_end == line_end);
}

/// A line is read from stdin exactly where a username with more than white space is given, no
/// password is, and the flag is set.
pub proof fn stdin_is_read_exactly_when_needed(cli: CliView)
    ensures
        cli.reads_stdin() <==> {
            &&& cli.username is Some
            &&& exists|i: int|
                0 <= i < cli.username->0.len() && !is_white_space(#[trigger] cli.username->0[i])
            &&& cli.password is None
            &&& cli.password_stdin
        },
{
    if cli.username is Some {
        trimming_empties_white_space_alone(cli.username->0);
    }
}

/// Credentials that resolve hold the given username unchanged and not blank, and a password that
/// is not empty; without a username there are none, whatever else is given.
pub proof fn resolved_credentials_are_usable(cli: CliView, stdin_line: Option<Seq<char>>)
    ensures
        cli.credentials(stdin_line) == Ok::<_, ErrorView>(None::<(Seq<char>, Seq<char>)>)
            <==> cli.username is None,
        cli.credentials(stdin_line) matches Ok(Some(pair)) ==> {
            &&& cli.username == Some(pair.0)
            &&& !is_blank(pair.0)
            &&& pair.1.len() > 0
        },
{
}

/// What stdin holds matters only where the flags ask for it.
pub proof fn stdin_is_ignored_unless_asked_for(
    cli: CliView,
    one: Option<Seq<char>>,
    other: Option<Seq<char>>,
)
    requires
        !cli.reads_stdin(),
    ensures
        cli.credentials(one) == cli.credentials(other),
{
}

} // verus!
