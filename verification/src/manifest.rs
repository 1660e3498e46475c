//! The remote manifest, its on-disk cache, and the fetch bookkeeping.
//!
//! A manifest is remote-authoritative and immutable once fetched; the next
//! successful fetch supersedes it wholesale. The cache keeps the last
//! successfully fetched manifest for presentation when offline — it never
//! authorizes a launch.

use vstd::prelude::*;

verus! {

use crate::errors::LauncherError;

/// One news entry shown by the shell.
#[derive(Debug)]
pub struct NewsItem {
    pub title: String,
    pub image: String,
    pub date: String,
    pub link: Option<String>,
}

/// Mathematical image of a news entry.
pub struct NewsItemView {
    pub title: Seq<char>,
    pub image: Seq<char>,
    pub date: Seq<char>,
    pub link: Option<Seq<char>>,
}

impl View for NewsItem {
    type V = NewsItemView;

    open spec fn view(&self) -> NewsItemView {
        NewsItemView {
            title: self.title@,
            image: self.image@,
            date: self.date@,
            link: self.link.deep_view(),
        }
    }
}

impl DeepView for NewsItem {
    type V = NewsItemView;

    open spec fn deep_view(&self) -> NewsItemView {
        self.view()
    }
}

/// The remote-authoritative record of the latest distributable version:
/// what it is called, where its archive lives, the checksum the archive
/// must satisfy, and the presentation data around it. A well-formed value
/// keeps `spec_manifest_wf`: the sidebar links come from a JSON object,
/// so their labels are pairwise distinct.
#[derive(Debug)]
pub struct GameManifest {
    pub game_name: String,
    pub game_exe: Option<String>,
    pub latest_version: String,
    pub game_zip: String,
    pub checksum: String,
    pub server_status: Option<String>,
    pub maintenance_message: Option<String>,
    pub backgrounds: Vec<String>,
    pub sidebar_links: Option<Vec<(String, String)>>,
    pub news: Vec<NewsItem>,
    pub languages: Vec<String>,
}

/// Mathematical image of a manifest.
pub struct GameManifestView {
    pub game_name: Seq<char>,
    pub game_exe: Option<Seq<char>>,
    pub latest_version: Seq<char>,
    pub game_zip: Seq<char>,
    pub checksum: Seq<char>,
    pub server_status: Option<Seq<char>>,
    pub maintenance_message: Option<Seq<char>>,
    pub backgrounds: Seq<Seq<char>>,
    pub sidebar_links: Option<Seq<(Seq<char>, Seq<char>)>>,
    pub news: Seq<NewsItemView>,
    pub languages: Seq<Seq<char>>,
}

impl View for GameManifest {
    type V = GameManifestView;

    open spec fn view(&self) -> GameManifestView {
        GameManifestView {
            game_name: self.game_name@,
            game_exe: self.game_exe.deep_view(),
            latest_version: self.latest_version@,
            game_zip: self.game_zip@,
            checksum: self.checksum@,
            server_status: self.server_status.deep_view(),
            maintenance_message: self.maintenance_message.deep_view(),
            backgrounds: self.backgrounds.deep_view(),
            sidebar_links: self.sidebar_links.deep_view(),
            news: self.news.deep_view(),
            languages: self.languages.deep_view(),
        }
    }
}

impl DeepView for GameManifest {
    type V = GameManifestView;

    open spec fn deep_view(&self) -> GameManifestView {
        self.view()
    }
}

fn clone_opt_string(o: &Option<String>) -> (r: Option<String>)
    ensures
        r.deep_view() == o.deep_view(),
{
    match o {
        Some(s) => Some(s.clone()),
        None => None,
    }
}

fn clone_string_vec(v: &Vec<String>) -> (r: Vec<String>)
    ensures
        r.deep_view() == v.deep_view(),
{
    let mut r: Vec<String> = Vec::new();
    let mut i: usize = 0;
    while i < v.len()
        invariant
            i <= v.len(),
            r@.len() == i,
            r.deep_view() =~= v.deep_view().subrange(0, i as int),
        decreases v.len() - i,
    {
        r.push(v[i].clone());
        i += 1;
        proof {
            assert forall|j: int| 0 <= j < i as int implies r.deep_view()[j]
                == v.deep_view().subrange(0, i as int)[j] by {
                assert(r.deep_view()[j] == r@[j].deep_view());
                assert(v.deep_view()[j] == v@[j].deep_view());
            }
            assert(r.deep_view() =~= v.deep_view().subrange(0, i as int));
        }
    }
    assert(v.deep_view().subrange(0, v.len() as int) =~= v.deep_view());
    r
}

fn clone_link_vec(v: &Vec<(String, String)>) -> (r: Vec<(String, String)>)
    ensures
        r.deep_view() == v.deep_view(),
{
    let mut r: Vec<(String, String)> = Vec::new();
    let mut i: usize = 0;
    while i < v.len()
        invariant
            i <= v.len(),
            r@.len() == i,
            r.deep_view() =~= v.deep_view().subrange(0, i as int),
        decreases v.len() - i,
    {
        let p = &v[i];
        r.push((p.0.clone(), p.1.clone()));
        i += 1;
        proof {
            assert forall|j: int| 0 <= j < i as int implies r.deep_view()[j]
                == v.deep_view().subrange(0, i as int)[j] by {
                assert(r.deep_view()[j] == r@[j].deep_view());
                assert(v.deep_view()[j] == v@[j].deep_view());
            }
            assert(r.deep_view() =~= v.deep_view().subrange(0, i as int));
        }
    }
    assert(v.deep_view().subrange(0, v.len() as int) =~= v.deep_view());
    r
}

fn clone_news_vec(v: &Vec<NewsItem>) -> (r: Vec<NewsItem>)
    ensures
        r.deep_view() == v.deep_view(),
{
    let mut r: Vec<NewsItem> = Vec::new();
    let mut i: usize = 0;
    while i < v.len()
        invariant
            i <= v.len(),
            r@.len() == i,
            r.deep_view() =~= v.deep_view().subrange(0, i as int),
        decreases v.len() - i,
    {
        r.push(v[i].clone());
        i += 1;
        proof {
            assert forall|j: int| 0 <= j < i as int implies r.deep_view()[j]
                == v.deep_view().subrange(0, i as int)[j] by {
                assert(r.deep_view()[j] == r@[j].deep_view());
                assert(v.deep_view()[j] == v@[j].deep_view());
            }
            assert(r.deep_view() =~= v.deep_view().subrange(0, i as int));
        }
    }
    assert(v.deep_view().subrange(0, v.len() as int) =~= v.deep_view());
    r
}

impl Clone for NewsItem {
    fn clone(&self) -> (r: Self)
        ensures
            r@ == self@,
    {
        NewsItem {
            title: self.title.clone(),
            image: self.image.clone(),
            date: self.date.clone(),
            link: clone_opt_string(&self.link),
        }
    }
}

impl Clone for GameManifest {
    fn clone(&self) -> (r: Self)
        ensures
            r@ == self@,
    {
        GameManifest {
            game_name: self.game_name.clone(),
            game_exe: clone_opt_string(&self.game_exe),
            latest_version: self.latest_version.clone(),
            game_zip: self.game_zip.clone(),
            checksum: self.checksum.clone(),
            server_status: clone_opt_string(&self.server_status),
            maintenance_message: clone_opt_string(&self.maintenance_message),
            backgrounds: clone_string_vec(&self.backgrounds),
            sidebar_links: match &self.sidebar_links {
                Some(v) => Some(clone_link_vec(v)),
                None => None,
            },
            news: clone_news_vec(&self.news),
            languages: clone_string_vec(&self.languages),
        }
    }
}

/// The shape a well-formed manifest keeps: the sidebar links form a map
/// from label to URL, so the labels are pairwise distinct (the wire
/// format carries them as a JSON object, which cannot repeat a key).
pub open spec fn spec_manifest_wf(m: GameManifestView) -> bool {
    match m.sidebar_links {
        Some(links) => forall|i: int, j: int|
            0 <= i < j < links.len() ==> links[i].0 != links[j].0,
        None => true,
    }
}

/// The outcome of a manifest fetch attempt, as the surrounding binary
/// observed it: each failure keeps the stage at which it happened.
#[derive(Debug)]
pub enum FetchOutcome {
    /// The body deserialized into a manifest.
    Fetched(GameManifest),
    /// The request never reached the server: a network error or timeout.
    Unreachable,
    /// The server answered, but with a non-success status.
    BadStatus,
    /// The body arrived, but did not deserialize as a manifest.
    BadBody,
}

/// The manifest a fetch outcome carries, if any.
pub open spec fn spec_fetched_manifest(o: FetchOutcome) -> Option<GameManifestView> {
    match o {
        FetchOutcome::Fetched(m) => Some(m@),
        _ => None,
    }
}

/// The error each failed fetch stage surfaces as: an unreachable server
/// is a connectivity failure, never a manifest failure; a refused status
/// or a malformed body is a manifest failure.
pub open spec fn spec_fetch_error(o: FetchOutcome) -> LauncherError {
    match o {
        FetchOutcome::Unreachable => LauncherError::Connectivity,
        _ => LauncherError::Manifest,
    }
}

/// Model of the on-disk manifest cache: what a read of the cache file would
/// yield — the last manifest whose cache write succeeded, or nothing when
/// the file is absent, unreadable or unparsable.
pub struct ManifestCache {
    pub stored: Option<GameManifest>,
}

/// The cache content after a fetch attempt: a successful fetch overwrites it
/// when its best-effort write succeeds; a failed fetch, or a failed write,
/// leaves it untouched.
pub open spec fn spec_cache_after_fetch(
    prev: Option<GameManifestView>,
    fetched: Option<GameManifestView>,
    write_ok: bool,
) -> Option<GameManifestView> {
    match fetched {
        Some(m) => if write_ok {
            Some(m)
        } else {
            prev
        },
        None => prev,
    }
}

impl ManifestCache {
    /// Finishes a manifest fetch attempt. The HTTP GET and the JSON
    /// deserialization are network work done by the surrounding binary;
    /// `outcome` is what they observed, `write_ok` whether the best-effort
    /// cache write to disk went through. A cache-write failure never fails
    /// the fetch; a failed fetch never touches the cache, and surfaces the
    /// error of exactly the stage that failed.
    pub fn fetch_manifest(&mut self, outcome: FetchOutcome, write_ok: bool) -> (r: Result<
        GameManifest,
        LauncherError,
    >)
        ensures
            final(self).stored.deep_view() == spec_cache_after_fetch(
                old(self).stored.deep_view(),
                spec_fetched_manifest(outcome),
                write_ok,
            ),
            r is Ok <==> outcome is Fetched,
            outcome matches FetchOutcome::Fetched(m) ==> r->Ok_0@ == m@,
            !(outcome is Fetched) ==> r == Err::<GameManifest, LauncherError>(
                spec_fetch_error(outcome),
            ) && *final(self) == *old(self),
    {
        match outcome {
            FetchOutcome::Fetched(m) => {
                if write_ok {
                    self.stored = Some(m.clone());
                }
                Ok(m)
            },
            FetchOutcome::Unreachable => Err(LauncherError::Connectivity),
            FetchOutcome::BadStatus => Err(LauncherError::Manifest),
            FetchOutcome::BadBody => Err(LauncherError::Manifest),
        }
    }

    /// Reads the cache model back: exactly what the last successful cache
    /// write left there. On disk, a missing, unreadable or unparsable cache
    /// file is deliberately treated as "no cache", never as an error.
    pub fn load_cached_manifest(&self) -> (r: Option<GameManifest>)
        ensures
            r.deep_view() == self.stored.deep_view(),
    {
        match &self.stored {
            Some(m) => Some(m.clone()),
            None => None,
        }
    }
}

/// Law: a fetch failure after an earlier successful fetch leaves the cache
/// exactly as that success left it — reading it back still yields the last
/// successfully fetched manifest unchanged, whatever came before.
pub proof fn lemma_cache_survives_failed_fetch(
    prev: Option<GameManifestView>,
    m: GameManifestView,
    write_ok: bool,
)
    ensures
        spec_cache_after_fetch(spec_cache_after_fetch(prev, Some(m), true), None, write_ok)
            == Some(m),
{
}

} // verus!
