//! Which files are downloaded, from where and under which names.
use crate::error::IaGetError;
use crate::http::join_url;
#[allow(unused_imports)]
use crate::error::ErrorView;
#[allow(unused_imports)]
use crate::http::joined_url;
#[allow(unused_imports)]
use crate::text::{
    ascii_lower, is_white_space, same_but_for_case, trimmed, trimming_takes_off_the_padding,
};
use vstd::prelude::*;

verus! {

/// A file as the metadata lists it, with the name that it can have on disk.
#[derive(Debug, PartialEq, Eq)]
pub struct ListedFile {
    pub name: String,
    /// What the metadata says about access; `true` for a private or restricted file.
    pub private: Option<String>,
    pub md5: Option<String>,
    /// The name, made fit for the filesystem.
    pub sanitized_name: String,
    /// Whether that took a change.
    pub was_modified: bool,
}

/// A [`ListedFile`] as plain text.
pub struct ListedFileView {
    pub name: Seq<char>,
    pub private: Option<Seq<char>>,
    pub md5: Option<Seq<char>>,
    pub sanitized_name: Seq<char>,
    pub was_modified: bool,
}

impl DeepView for ListedFile {
    type V = ListedFileView;

    open spec fn deep_view(&self) -> ListedFileView {
        ListedFileView {
            name: self.name@,
            private: self.private.deep_view(),
            md5: self.md5.deep_view(),
            sanitized_name: self.sanitized_name@,
            was_modified: self.was_modified,
        }
    }
}

impl ListedFileView {
    /// Whether the metadata marks the file as private: `true`, in any case, with white space
    /// around it or not.
    pub open spec fn is_private(self) -> bool {
        self.private matches Some(mark) && same_but_for_case(trimmed(mark), "true"@)
    }
}

/// What is to be downloaded: the URL, the name on disk and the MD5 hash of each file.
#[derive(Debug, PartialEq, Eq)]
pub struct DownloadPlan {
    pub downloads: Vec<(String, String, Option<String>)>,
    /// The names that were changed: as listed, and as made fit for the filesystem.
    pub sanitized_files: Vec<(String, String)>,
    /// How many private files were left out.
    pub private_count: usize,
}

/// A [`DownloadPlan`] as plain text.
#[verifier::ext_equal]
pub struct DownloadPlanView {
    pub downloads: Seq<(Seq<char>, Seq<char>, Option<Seq<char>>)>,
    pub sanitized_files: Seq<(Seq<char>, Seq<char>)>,
    pub private_count: nat,
}

impl DeepView for DownloadPlan {
    type V = DownloadPlanView;

    open spec fn deep_view(&self) -> DownloadPlanView {
        DownloadPlanView {
            downloads: self.downloads.deep_view(),
            sanitized_files: self.sanitized_files.deep_view(),
            private_count: self.private_count as nat,
        }
    }
}

/// A listed file and its URL.
pub type Entry = (ListedFileView, Seq<char>);

/// What is downloaded of a file: its URL, its name on disk and its MD5 hash.
pub open spec fn download_of(entry: Entry) -> (Seq<char>, Seq<char>, Option<Seq<char>>) {
    (entry.1, entry.0.sanitized_name, entry.0.md5)
}

/// The files that are downloaded: all of them for a session that is authenticated, else those that
/// are not private.
pub open spec fn taken(authenticated: bool) -> spec_fn(Entry) -> bool {
    |entry: Entry| authenticated || !entry.0.is_private()
}

/// The files that are left out.
pub open spec fn left_out(authenticated: bool) -> spec_fn(Entry) -> bool {
    |entry: Entry| !authenticated && entry.0.is_private()
}

/// The files whose name was changed.
pub open spec fn renamed() -> spec_fn(Entry) -> bool {
    |entry: Entry| entry.0.was_modified
}

/// The plan for the given files.
pub open spec fn plan_of(entries: Seq<Entry>, authenticated: bool) -> DownloadPlanView {
    let kept = entries.filter(taken(authenticated));
    DownloadPlanView {
        downloads: kept.map_values(|entry: Entry| download_of(entry)),
        sanitized_files: kept.filter(renamed()).map_values(
            |entry: Entry| (entry.0.name, entry.0.sanitized_name),
        ),
        private_count: entries.filter(left_out(authenticated)).len(),
    }
}

/// The files, each with its URL.
pub open spec fn entries_of(files: Seq<ListedFileView>, urls: Seq<Seq<char>>) -> Seq<Entry> {
    Seq::new(files.len(), |i: int| (files[i], urls[i]))
}

/// The URL of a file: its name taken as a reference on the base URL, or the base URL itself where
/// that gives no URL.
pub open spec fn url_of(base_url: Seq<char>, joined: Option<Seq<char>>) -> Seq<char> {
    match joined {
        Some(url) => url,
        None => base_url,
    }
}

/// The URLs of the files on a base URL.
pub open spec fn urls_of(files: Seq<ListedFileView>, base_url: Seq<char>) -> Seq<Seq<char>> {
    files.map_values(
        |file: ListedFileView| url_of(base_url, joined_url(base_url, file.name)),
    )
}

/// Whether the metadata marks a file as private.
pub fn is_private(file: &ListedFile) -> (r: bool)
    ensures
        r == file.deep_view().is_private(),
{
    match &file.private {
        Some(mark) => mark.as_str().trim().eq_ignore_ascii_case("true"),
        None => false,
    }
}

/// The URL to use, given what joining came to.
pub fn joined_or_base(base_url: &str, joined: Option<String>) -> (r: String)
    ensures
        r@ == url_of(base_url@, joined.deep_view()),
{
    match joined {
        Some(url) => url,
        None => base_url.to_owned(),
    }
}

proof fn plan_push(entries: Seq<Entry>, entry: Entry, authenticated: bool)
    ensures
        ({
            let before = plan_of(entries, authenticated);
            let after = plan_of(entries.push(entry), authenticated);
            if taken(authenticated)(entry) {
                &&& after.downloads == before.downloads.push(download_of(entry))
                &&& after.sanitized_files == (if entry.0.was_modified {
                    before.sanitized_files.push((entry.0.name, entry.0.sanitized_name))
                } else {
                    before.sanitized_files
                })
                &&& after.private_count == before.private_count
            } else {
                &&& after.downloads == before.downloads
                &&& after.sanitized_files == before.sanitized_files
                &&& after.private_count == before.private_count + 1
            }
        }),
{
    reveal(Seq::filter);
    assert(entries.push(entry).drop_last() == entries);
    let kept = entries.filter(taken(authenticated));
    assert(kept.push(entry).drop_last() == kept);
    let before = plan_of(entries, authenticated);
    let after = plan_of(entries.push(entry), authenticated);
    if taken(authenticated)(entry) {
        assert(after.downloads =~= before.downloads.push(download_of(entry)));
        if entry.0.was_modified {
            assert(after.sanitized_files =~= before.sanitized_files.push(
                (entry.0.name, entry.0.sanitized_name),
            ));
        }
    }
}

/// Prepares the download data for the listed files, `urls` holding the URL of each.
pub fn plan_with_urls(files: Vec<ListedFile>, urls: Vec<String>, authenticated: bool) -> (r:
    DownloadPlan)
    requires
        urls.len() == files.len(),
    ensures
        r.deep_view() == plan_of(
            entries_of(files.deep_view(), urls.deep_view()),
            authenticated,
        ),
{
    let ghost entries = entries_of(files.deep_view(), urls.deep_view());
    let mut plan: DownloadPlan = DownloadPlan {
        downloads: Vec::new(),
        sanitized_files: Vec::new(),
        private_count: 0,
    };
    proof {
        reveal(Seq::filter);
        assert(plan.deep_view() =~= plan_of(entries.take(0), authenticated));
    }
    for i in 0..files.len()
        invariant
            urls.len() == files.len(),
            entries == entries_of(files.deep_view(), urls.deep_view()),
            plan.private_count <= i,
            plan.deep_view() == plan_of(entries.take(i as int), authenticated),
    {
        let file: &ListedFile = &files[i];
        let ghost before = plan.deep_view();
        proof {
            assert(entries[i as int] == (file.deep_view(), urls[i as int]@));
            assert(entries.take(i + 1) == entries.take(i as int).push(entries[i as int]));
            plan_push(entries.take(i as int), entries[i as int], authenticated);
        }
        if is_private(file) && !authenticated {
            plan.private_count = plan.private_count + 1;
        } else {
            if file.was_modified {
                plan.sanitized_files.push((file.name.clone(), file.sanitized_name.clone()));
                assert(plan.sanitized_files.deep_view() =~= before.sanitized_files.push(
                    (file.name@, file.sanitized_name@),
                ));
            }
            plan.downloads.push(
                (urls[i].clone(), file.sanitized_name.clone(), file.md5.clone()),
            );
            assert(plan.downloads.deep_view() =~= before.downloads.push(
                (urls[i as int]@, file.sanitized_name@, file.md5.deep_view()),
            ));
        }
    }
    assert(entries.take(files.len() as int) == entries);
    plan
}

/// Prepares the download data for the listed files on a base URL.
pub fn plan_downloads(files: Vec<ListedFile>, base_url: &str, authenticated: bool) -> (r:
    DownloadPlan)
    ensures
        r.deep_view() == plan_of(
            entries_of(files.deep_view(), urls_of(files.deep_view(), base_url@)),
            authenticated,
        ),
{
    let mut urls: Vec<String> = Vec::new();
    for i in 0..files.len()
        invariant
            urls.len() == i,
            forall|j: int|
                0 <= j < i ==> (#[trigger] urls[j])@ == urls_of(files.deep_view(), base_url@)[j],
    {
        let url: String = joined_or_base(base_url, join_url(base_url, files[i].name.as_str()));
        urls.push(url);
    }
    assert(urls.deep_view() =~= urls_of(files.deep_view(), base_url@));
    plan_with_urls(files, urls, authenticated)
}

/// Every listed file is either downloaded or counted as left out, never both.
pub proof fn plan_accounts_for_every_file(entries: Seq<Entry>, authenticated: bool)
    ensures
        plan_of(entries, authenticated).downloads.len() + plan_of(
            entries,
            authenticated,
        ).private_count == entries.len(),
        plan_of(entries, authenticated).sanitized_files.len() <= plan_of(
            entries,
            authenticated,
        ).downloads.len(),
    decreases entries.len(),
{
    reveal(Seq::filter);
    if entries.len() > 0 {
        plan_accounts_for_every_file(entries.drop_last(), authenticated);
        assert(entries.drop_last().push(entries.last()) == entries);
        plan_push(entries.drop_last(), entries.last(), authenticated);
    }
}

/// Without authentication no private file is downloaded: whatever is downloaded is a listed file
/// that is not private.
pub proof fn private_files_need_authentication(entries: Seq<Entry>, i: int)
    requires
        0 <= i < plan_of(entries, false).downloads.len(),
    ensures
        exists|entry: Entry|
            #![trigger entries.contains(entry)]
            entries.contains(entry) && !entry.0.is_private() && download_of(entry) == plan_of(
                entries,
                false,
            ).downloads[i],
    decreases entries.len(),
{
    reveal(Seq::filter);
    if entries.len() > 0 {
        let fewer = entries.drop_last();
        assert(fewer.push(entries.last()) == entries);
        plan_push(fewer, entries.last(), false);
        assert(entries.contains(entries.last()));
        if i < plan_of(fewer, false).downloads.len() {
            private_files_need_authentication(fewer, i);
            let entry = choose|entry: Entry|
                #![trigger fewer.contains(entry)]
                fewer.contains(entry) && !entry.0.is_private() && download_of(entry) == plan_of(
                    fewer,
                    false,
                ).downloads[i];
            let k = choose|k: int| 0 <= k < fewer.len() && fewer[k] == entry;
            assert(entries[k] == entry);
            assert(entries.contains(entry));
        }
    }
}

/// With authentication every listed file is downloaded, in the order of the list.
pub proof fn authentication_gives_access_to_every_file(entries: Seq<Entry>)
    ensures
        plan_of(entries, true).downloads == entries.map_values(|entry: Entry| download_of(entry)),
        plan_of(entries, true).private_count == 0,
    decreases entries.len(),
{
    reveal(Seq::filter);
    if entries.len() > 0 {
        let fewer = entries.drop_last();
        assert(fewer.push(entries.last()) == entries);
        plan_push(fewer, entries.last(), true);
        authentication_gives_access_to_every_file(fewer);
    }
    assert(plan_of(entries, true).downloads =~= entries.map_values(
        |entry: Entry| download_of(entry),
    ));
}

/// A file that is not private is downloaded, with authentication or without.
pub proof fn open_files_are_downloaded(entries: Seq<Entry>, authenticated: bool, k: int)
    requires
        0 <= k < entries.len(),
        !entries[k].0.is_private(),
    ensures
        plan_of(entries, authenticated).downloads.contains(download_of(entries[k])),
    decreases entries.len(),
{
    reveal(Seq::filter);
    let fewer = entries.drop_last();
    assert(fewer.push(entries.last()) == entries);
    plan_push(fewer, entries.last(), authenticated);
    let before = plan_of(fewer, authenticated).downloads;
    let after = plan_of(entries, authenticated).downloads;
    if k < fewer.len() {
        open_files_are_downloaded(fewer, authenticated, k);
        let i = choose|i: int| 0 <= i < before.len() && before[i] == download_of(entries[k]);
        assert(after[i] == download_of(entries[k]));
    } else {
        assert(after[before.len() as int] == download_of(entries[k]));
    }
}

/// The views of files and plans hold all that is in them.
pub proof fn files_and_plans_are_seen_whole(file: ListedFile, plan: DownloadPlan)
    ensures
        file.deep_view().name == file.name@,
        file.deep_view().private is Some <==> file.private is Some,
        file.private matches Some(mark) ==> file.deep_view().private->0 == mark@,
        file.deep_view().md5 is Some <==> file.md5 is Some,
        file.md5 matches Some(md5) ==> file.deep_view().md5->0 == md5@,
        file.deep_view().sanitized_name == file.sanitized_name@,
        file.deep_view().was_modified == file.was_modified,
        plan.deep_view().downloads.len() == plan.downloads.len(),
        forall|i: int|
            #![trigger plan.downloads[i]]
            0 <= i < plan.downloads.len() ==> plan.deep_view().downloads[i] == (
                plan.downloads[i].0@,
                plan.downloads[i].1@,
                plan.downloads[i].2.deep_view(),
            ),
        plan.deep_view().sanitized_files.len() == plan.sanitized_files.len(),
        forall|i: int|
            #![trigger plan.sanitized_files[i]]
            0 <= i < plan.sanitized_files.len() ==> plan.deep_view().sanitized_files[i] == (
                plan.sanitized_files[i].0@,
                plan.sanitized_files[i].1@,
            ),
        plan.deep_view().private_count == plan.private_count,
{
}

/// A file is private exactly where its mark is the word `true`, each letter in either case, with
/// any white space around it.
pub proof fn private_means_the_word_true(
    file: ListedFileView,
    lead: Seq<char>,
    word: Seq<char>,
    trail: Seq<char>,
)
    requires
        forall|i: int| 0 <= i < lead.len() ==> is_white_space(#[trigger] lead[i]),
        forall|i: int| 0 <= i < trail.len() ==> is_white_space(#[trigger] trail[i]),
        word.len() > 0 ==> !is_white_space(word.first()) && !is_white_space(word.last()),
        file.private == Some(lead + word + trail),
    ensures
        file.is_private() <==> {
            &&& word.len() == 4
            &&& word[0] == 't' || word[0] == 'T'
            &&& word[1] == 'r' || word[1] == 'R'
            &&& word[2] == 'u' || word[2] == 'U'
            &&& word[3] == 'e' || word[3] == 'E'
        },
{
    trimming_takes_off_the_padding(lead, word, trail);
    reveal_strlit("true");
    let plain = "true"@;
    if same_but_for_case(word, plain) {
        assert(ascii_lower(word[0]) == ascii_lower(plain[0]));
        assert(ascii_lower(word[1]) == ascii_lower(plain[1]));
        assert(ascii_lower(word[2]) == ascii_lower(plain[2]));
        assert(ascii_lower(word[3]) == ascii_lower(plain[3]));
    }
}

/// A file without a mark is not private.
pub proof fn unmarked_files_are_open(file: ListedFileView)
    requires
        file.private is None,
    ensures
        !file.is_private(),
{
}

/// The URL of a file is what joining its complete name to the base URL gives, and the base URL
/// itself where joining fails: for each file of the list.
pub proof fn file_url_is_the_joined_name(
    files: Seq<ListedFileView>,
    base_url: Seq<char>,
    i: int,
    url: Seq<char>,
)
    requires
        0 <= i < files.len(),
    ensures
        urls_of(files, base_url).len() == files.len(),
        joined_url(base_url, files[i].name) == Some(url) ==> urls_of(files, base_url)[i] == url,
        joined_url(base_url, files[i].name) is None ==> urls_of(files, base_url)[i] == base_url,
        entries_of(files, urls_of(files, base_url)).len() == files.len(),
        entries_of(files, urls_of(files, base_url))[i] == (
            files[i],
            urls_of(files, base_url)[i],
        ),
{
}

/// The plan grows with the list, file by file. A file that is not private, or any file of an
/// authenticated session, adds one download at the end: its complete name joined to the base URL
/// (the base URL where that fails), its name on disk and its hash; and, where its name was changed,
/// one renaming at the end. Any other file adds one to the count. Nothing else changes, and an empty
/// list has an empty plan.
pub proof fn each_file_adds_its_own_download(
    files: Seq<ListedFileView>,
    file: ListedFileView,
    base_url: Seq<char>,
    authenticated: bool,
)
    ensures
        ({
            let none = plan_of(
                entries_of(Seq::empty(), urls_of(Seq::empty(), base_url)),
                authenticated,
            );
            &&& none.downloads.len() == 0
            &&& none.sanitized_files.len() == 0
            &&& none.private_count == 0
        }),
        ({
            let before = plan_of(entries_of(files, urls_of(files, base_url)), authenticated);
            let more = files.push(file);
            let after = plan_of(entries_of(more, urls_of(more, base_url)), authenticated);
            if authenticated || !file.is_private() {
                &&& after.downloads == before.downloads.push(
                    (
                        match joined_url(base_url, file.name) {
                            Some(url) => url,
                            None => base_url,
                        },
                        file.sanitized_name,
                        file.md5,
                    ),
                )
                &&& after.sanitized_files == (if file.was_modified {
                    before.sanitized_files.push((file.name, file.sanitized_name))
                } else {
                    before.sanitized_files
                })
                &&& after.private_count == before.private_count
            } else {
                &&& after.downloads == before.downloads
                &&& after.sanitized_files == before.sanitized_files
                &&& after.private_count == before.private_count + 1
            }
        }),
{
    reveal(Seq::filter);
    let more = files.push(file);
    let entries = entries_of(files, urls_of(files, base_url));
    let entry = (file, url_of(base_url, joined_url(base_url, file.name)));
    assert(entries_of(more, urls_of(more, base_url)) =~= entries.push(entry));
    plan_push(entries, entry, authenticated);
}

/// The same for given URLs: the plan of a list is that of its first files, and then what its last
/// file adds with its own URL.
pub proof fn each_url_goes_with_its_file(
    files: Seq<ListedFileView>,
    urls: Seq<Seq<char>>,
    file: ListedFileView,
    url: Seq<char>,
    authenticated: bool,
)
    requires
        files.len() == urls.len(),
    ensures
        ({
            let before = plan_of(entries_of(files, urls), authenticated);
            let after = plan_of(entries_of(files.push(file), urls.push(url)), authenticated);
            if authenticated || !file.is_private() {
                &&& after.downloads == before.downloads.push((url, file.sanitized_name, file.md5))
                &&& after.sanitized_files == (if file.was_modified {
                    before.sanitized_files.push((file.name, file.sanitized_name))
                } else {
                    before.sanitized_files
                })
                &&& after.private_count == before.private_count
            } else {
                &&& after.downloads == before.downloads
                &&& after.sanitized_files == before.sanitized_files
                &&& after.private_count == before.private_count + 1
            }
        }),
{
    let entries = entries_of(files, urls);
    assert(entries_of(files.push(file), urls.push(url)) =~= entries.push((file, url)));
    plan_push(entries, (file, url), authenticated);
}

/// Where joining gives a URL, that is the URL used; where it fails, the base URL is.
pub proof fn joined_url_is_preferred(base_url: Seq<char>, url: Seq<char>)
    ensures
        url_of(base_url, Some(url)) == url,
        url_of(base_url, None) == base_url,
{
}

/// Where nothing can be downloaded the user is told to give credentials if private files were left
/// out, and that the list holds nothing otherwise.
pub proof fn emptiness_is_explained(plan: DownloadPlanView)
    ensures
        plan.private_count > 0 ==> plan.emptiness() == ErrorView::Network(
            "No downloadable files found. This archive may only contain private or restricted files. Try again with --username and --password (or --password-stdin)."@,
        ),
        plan.private_count == 0 ==> plan.emptiness() == ErrorView::Network(
            "No downloadable files found in archive metadata."@,
        ),
{
}

impl DownloadPlanView {
    /// Why nothing can be downloaded.
    pub open spec fn emptiness(self) -> ErrorView {
        if self.private_count > 0 {
            ErrorView::Network(
                "No downloadable files found. This archive may only contain private or restricted files. Try again with --username and --password (or --password-stdin)."@,
            )
        } else {
            ErrorView::Network("No downloadable files found in archive metadata."@)
        }
    }
}

/// Why a plan without downloads has none.
pub fn no_downloads_error(plan: &DownloadPlan) -> (r: IaGetError)
    ensures
        r.deep_view() == plan.deep_view().emptiness(),
{
    if plan.private_count > 0 {
        IaGetError::network(
            "No downloadable files found. This archive may only contain private or restricted files. Try again with --username and --password (or --password-stdin).",
        )
    } else {
        IaGetError::network("No downloadable files found in archive metadata.")
    }
}

/// The ending of a noun after a count.
pub fn plural_suffix(count: usize) -> (r: &'static str)
    ensures
        r@ == (if count == 1 {
            ""@
        } else {
            "s"@
        }),
{
    if count == 1 {
        ""
    } else {
        "s"
    }
}

} // verus!
