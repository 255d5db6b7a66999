//! The trash of a workspace: descriptions of trashed items, and the
//! one-time tokens that confirm a destructive request.

use crate::ranking::{
    as_ints, key_views, lemma_ranked_is_sorted, rank, ranked, RankKey, RankKeyView,
};
use crate::text::{copy_opt_text, str_eq};
use crate::trusted::{is_hyphenated_id, now_timestamp, random_uuid};
use vstd::prelude::*;

verus! {

/// Why a trash operation failed. `Io` and `Serde` carry the message of the
/// failure underneath.
#[derive(Debug, Clone)]
pub enum TrashError {
    NotFound(String),
    AlreadyExists(String),
    Io(String),
    Serde(String),
}

/// The description kept beside a trashed item.
#[derive(Debug, Clone)]
pub struct TrashMetadata {
    pub trash_id: String,
    pub original_path: String,
    pub deleted_at: String,
    pub item_type: String,
    pub size: u64,
    pub sha256: Option<String>,
    pub request_id: String,
}

/// The mathematical form of `TrashMetadata`.
pub ghost struct TrashMetadataView {
    pub trash_id: Seq<char>,
    pub original_path: Seq<char>,
    pub deleted_at: Seq<char>,
    pub item_type: Seq<char>,
    pub size: u64,
    pub sha256: Option<Seq<char>>,
    pub request_id: Seq<char>,
}

impl View for TrashMetadata {
    type V = TrashMetadataView;

    open spec fn view(&self) -> TrashMetadataView {
        TrashMetadataView {
            trash_id: self.trash_id@,
            original_path: self.original_path@,
            deleted_at: self.deleted_at@,
            item_type: self.item_type@,
            size: self.size,
            sha256: self.sha256.deep_view(),
            request_id: self.request_id@,
        }
    }
}

impl TrashMetadata {
    /// A copy that is equal field by field.
    pub fn duplicate(&self) -> (r: TrashMetadata)
        ensures
            r@ == self@,
    {
        TrashMetadata {
            trash_id: self.trash_id.clone(),
            original_path: self.original_path.clone(),
            deleted_at: self.deleted_at.clone(),
            item_type: self.item_type.clone(),
            size: self.size,
            sha256: copy_opt_text(&self.sha256),
            request_id: self.request_id.clone(),
        }
    }
}

/// The items of the trash and their number.
#[derive(Debug, Clone)]
pub struct TrashListResult {
    pub items: Vec<TrashMetadata>,
    pub count: usize,
}

/// The keys by which trashed items are ordered: the time of deletion.
pub open spec fn deletion_keys(items: Seq<TrashMetadata>) -> Seq<RankKeyView> {
    Seq::new(items.len(), |i: int| RankKeyView { major: 0, minor: items[i]@.deleted_at })
}

/// The items with the latest deletion first; items deleted at the same time
/// keep their order.
pub open spec fn newest_first(items: Seq<TrashMetadata>) -> Seq<TrashMetadataView> {
    Seq::new(items.len(), |j: int| items[ranked(deletion_keys(items))[j]]@)
}

/// The views of a vector of descriptions.
pub open spec fn metadata_views(items: Seq<TrashMetadata>) -> Seq<TrashMetadataView> {
    Seq::new(items.len(), |i: int| items[i]@)
}

/// Orders trashed items by time of deletion, latest first.
pub fn sort_newest_first(items: &Vec<TrashMetadata>) -> (r: Vec<TrashMetadata>)
    ensures
        metadata_views(r@) == newest_first(items@),
        r@.len() == items@.len(),
{
    let mut keys: Vec<RankKey<'_>> = Vec::new();
    let mut i: usize = 0;
    while i < items.len()
        invariant
            i <= items.len(),
            keys@.len() == i,
            forall|k: int| 0 <= k < i ==> (#[trigger] keys@[k])@ == deletion_keys(items@)[k],
        decreases items.len() - i,
    {
        keys.push(RankKey { major: 0, minor: items[i].deleted_at.as_str() });
        i = i + 1;
    }
    assert(key_views(keys@) =~= deletion_keys(items@));
    let order = rank(&keys);
    proof {
        lemma_ranked_is_sorted(deletion_keys(items@));
    }
    assert forall|q: int| 0 <= q < order@.len() implies (#[trigger] order@[q]) < items@.len() by {
        assert(as_ints(order@)[q] == order@[q]);
    }
    let mut sorted: Vec<TrashMetadata> = Vec::new();
    let mut j: usize = 0;
    while j < order.len()
        invariant
            j <= order.len(),
            order@.len() == items@.len(),
            sorted@.len() == j,
            as_ints(order@) == ranked(deletion_keys(items@)),
            forall|q: int| 0 <= q < order@.len() ==> (#[trigger] order@[q]) < items@.len(),
            forall|q: int| 0 <= q < j ==> (#[trigger] sorted@[q])@ == items@[order@[q] as int]@,
        decreases order.len() - j,
    {
        sorted.push(items[order[j]].duplicate());
        j = j + 1;
    }
    assert forall|q: int| 0 <= q < items@.len() implies metadata_views(sorted@)[q] == newest_first(
        items@,
    )[q] by {
        assert(as_ints(order@)[q] == order@[q]);
    }
    assert(metadata_views(sorted@) =~= newest_first(items@));
    sorted
}

impl TrashListResult {
    /// The listing, latest deletion first, with its count.
    pub fn new(items: &Vec<TrashMetadata>) -> (r: TrashListResult)
        ensures
            metadata_views(r.items@) == newest_first(items@),
            r.count == items@.len(),
    {
        let sorted = sort_newest_first(items);
        let count = sorted.len();
        TrashListResult { items: sorted, count }
    }
}

/// Where a trashed item is restored to: the path asked for, or the one it
/// was deleted from.
pub fn restore_target(metadata: &TrashMetadata, to_path: Option<&str>) -> (r: String)
    ensures
        r@ == match to_path {
            Some(path) => path@,
            None => metadata@.original_path,
        },
{
    match to_path {
        Some(path) => String::from_str(path),
        None => metadata.original_path.clone(),
    }
}

/// Whether an item can be restored to a path: nothing may be there.
pub fn check_restore(path: &str, occupied: bool) -> (r: Result<(), TrashError>)
    ensures
        occupied ==> (r matches Err(TrashError::AlreadyExists(p)) && p@ == path@),
        !occupied ==> r is Ok,
{
    if occupied {
        Err(TrashError::AlreadyExists(String::from_str(path)))
    } else {
        Ok(())
    }
}

/// Whether something that must be there is: the source to trash, or the
/// trashed item asked for by id.
pub fn check_found(name: &str, found: bool) -> (r: Result<(), TrashError>)
    ensures
        !found ==> (r matches Err(TrashError::NotFound(n)) && n@ == name@),
        found ==> r is Ok,
{
    if found {
        Ok(())
    } else {
        Err(TrashError::NotFound(String::from_str(name)))
    }
}

/// The kind of a trashed item.
pub fn item_type_name(is_dir: bool) -> (r: &'static str)
    ensures
        is_dir ==> r@ == "directory"@,
        !is_dir ==> r@ == "file"@,
{
    if is_dir {
        "directory"
    } else {
        "file"
    }
}

/// A point in time: seconds since the Unix epoch and nanoseconds within the
/// second.
#[derive(Debug, Clone, Copy, PartialEq, Eq, Structural)]
pub struct Instant {
    pub seconds: i64,
    pub nanos: u32,
}

/// Seconds in a day.
pub const SECONDS_PER_DAY: i64 = 86400;

/// A point in time in nanoseconds since the Unix epoch.
pub open spec fn nanoseconds(at: Instant) -> int {
    at.seconds * 1000000000 + at.nanos
}

/// Whether an item is to be purged: every item where no age is asked for;
/// otherwise one whose time of deletion is known and lies more than the
/// given number of days before `now`.
pub open spec fn is_due(deleted_at: Option<Instant>, now: Instant, older_than_days: Option<i64>) -> bool {
    match older_than_days {
        None => true,
        Some(days) => match deleted_at {
            Some(at) => nanoseconds(at) < nanoseconds(now) - days * SECONDS_PER_DAY * 1000000000,
            None => false,
        },
    }
}

/// Whether an item is to be purged.
pub fn should_purge(deleted_at: Option<Instant>, now: Instant, older_than_days: Option<i64>) -> (r: bool)
    ensures
        r == is_due(deleted_at, now, older_than_days),
{
    match older_than_days {
        None => true,
        Some(days) => match deleted_at {
            Some(at) => {
                let deleted: i128 = at.seconds as i128 * 1000000000 + at.nanos as i128;
                let span: i128 = days as i128 * SECONDS_PER_DAY as i128;
                let cutoff: i128 = (now.seconds as i128 - span) * 1000000000 + now.nanos as i128;
                assert((now.seconds - days * SECONDS_PER_DAY) * 1000000000 + now.nanos
                    == nanoseconds(now) - days * SECONDS_PER_DAY * 1000000000) by (nonlinear_arith);
                deleted < cutoff
            },
            None => false,
        },
    }
}

/// A confirmation that was handed out: the token, the path it is good for,
/// and the second at which it expires.
#[derive(Debug, Clone)]
pub struct ConfirmToken {
    pub token: String,
    pub path: String,
    pub expires_at: i64,
}

/// The mathematical form of a `ConfirmToken`.
pub ghost struct ConfirmTokenView {
    pub token: Seq<char>,
    pub path: Seq<char>,
    pub expires_at: i64,
}

impl View for ConfirmToken {
    type V = ConfirmTokenView;

    open spec fn view(&self) -> ConfirmTokenView {
        ConfirmTokenView { token: self.token@, path: self.path@, expires_at: self.expires_at }
    }
}

/// The state of a trash manager.
pub ghost struct TrashView {
    pub workspace: Seq<char>,
    pub tokens: Seq<ConfirmTokenView>,
}

/// How many seconds a confirmation stays good.
pub const TOKEN_LIFETIME: i64 = 300;

/// The second at which a confirmation handed out at `now` expires.
pub open spec fn expiry(now: i64) -> i64 {
    if now <= i64::MAX - TOKEN_LIFETIME {
        (now + TOKEN_LIFETIME) as i64
    } else {
        i64::MAX
    }
}

/// The confirmations among the first `n` that are still good after `now`.
pub open spec fn live_tokens(tokens: Seq<ConfirmTokenView>, now: i64, n: nat) -> Seq<ConfirmTokenView>
    decreases n,
{
    if n == 0 {
        Seq::empty()
    } else {
        let before = live_tokens(tokens, now, (n - 1) as nat);
        if tokens[n - 1].expires_at > now {
            before.push(tokens[n - 1])
        } else {
            before
        }
    }
}

impl TrashView {
    /// No two confirmations share a token.
    pub open spec fn wf(self) -> bool {
        forall|i: int, j: int|
            0 <= i < j < self.tokens.len() ==> (#[trigger] self.tokens[i]).token
                != (#[trigger] self.tokens[j]).token
    }

    /// Whether confirmation `i` has the token.
    pub open spec fn is_at(self, token: Seq<char>, i: int) -> bool {
        0 <= i < self.tokens.len() && self.tokens[i].token == token
    }

    /// Whether the token was handed out and is still held.
    pub open spec fn holds(self, token: Seq<char>) -> bool {
        exists|i: int| #[trigger] self.is_at(token, i)
    }

    /// Where the token is held.
    pub open spec fn index_of(self, token: Seq<char>) -> int {
        choose|i: int| #[trigger] self.is_at(token, i)
    }

    /// The state once a confirmation is handed out: it takes the place of
    /// one with the same token, or is added.
    pub open spec fn with_token(self, entry: ConfirmTokenView) -> TrashView {
        if self.holds(entry.token) {
            TrashView { tokens: self.tokens.update(self.index_of(entry.token), entry), ..self }
        } else {
            TrashView { tokens: self.tokens.push(entry), ..self }
        }
    }

    /// The state once the token is used up.
    pub open spec fn without_token(self, token: Seq<char>) -> TrashView {
        if self.holds(token) {
            TrashView { tokens: self.tokens.remove(self.index_of(token)), ..self }
        } else {
            self
        }
    }

    /// Whether the token confirms a request for `path` at `now`: it is held,
    /// not yet expired, and was handed out for that path.
    pub open spec fn confirms(self, token: Seq<char>, path: Seq<char>, now: i64) -> bool {
        self.holds(token) && now < self.tokens[self.index_of(token)].expires_at
            && self.tokens[self.index_of(token)].path == path
    }
}

/// The trash of a workspace. Trashed items live in the directory `.trash`
/// under the workspace.
pub struct TrashManager {
    workspace: String,
    confirm_tokens: Vec<ConfirmToken>,
}

impl View for TrashManager {
    type V = TrashView;

    closed spec fn view(&self) -> TrashView {
        TrashView {
            workspace: self.workspace@,
            tokens: Seq::new(self.confirm_tokens@.len(), |i: int| self.confirm_tokens@[i]@),
        }
    }
}

impl TrashManager {
    /// The invariant that every manager keeps.
    pub open spec fn wf(&self) -> bool {
        self@.wf()
    }

    /// A trash for the workspace, with no confirmation outstanding.
    pub fn new(workspace: &str) -> (r: TrashManager)
        ensures
            r.wf(),
            r@.workspace == workspace@,
            r@.tokens.len() == 0,
    {
        TrashManager { workspace: String::from_str(workspace), confirm_tokens: Vec::new() }
    }

    /// Moves the trash to another workspace; confirmations stay.
    pub fn update_workspace(&mut self, workspace: &str)
        ensures
            final(self)@ == (TrashView { workspace: workspace@, ..old(self)@ }),
    {
        self.workspace = String::from_str(workspace);
    }

    /// The workspace that the trash belongs to.
    pub fn workspace(&self) -> (r: &str)
        ensures
            r@ == self@.workspace,
    {
        self.workspace.as_str()
    }

    /// The name of the directory under the workspace that holds the trash.
    pub fn directory_name() -> (r: &'static str)
        ensures
            r@ == ".trash"@,
    {
        ".trash"
    }

    fn find(&self, token: &str) -> (r: Option<usize>)
        requires
            self.wf(),
        ensures
            r is Some == self@.holds(token@),
            r matches Some(i) ==> i == self@.index_of(token@) && self@.is_at(token@, i as int),
    {
        let mut i: usize = 0;
        while i < self.confirm_tokens.len()
            invariant
                i <= self.confirm_tokens.len(),
                self.wf(),
                forall|j: int| 0 <= j < i ==> !self@.is_at(token@, j),
            decreases self.confirm_tokens.len() - i,
        {
            if str_eq(self.confirm_tokens[i].token.as_str(), token) {
                assert(self@.is_at(token@, i as int));
                proof {
                    let k = self@.index_of(token@);
                    assert(self@.is_at(token@, k));
                    if k != i {
                        assert(self@.tokens[k].token == self@.tokens[i as int].token);
                    }
                }
                return Some(i);
            }
            i = i + 1;
        }
        None
    }

    /// Hands out the given token as a confirmation for `path`, good for five
    /// minutes from `now`.
    pub fn generate_confirm_token_with(&mut self, path: &str, token: &str, now: i64) -> (r: String)
        requires
            old(self).wf(),
        ensures
            final(self).wf(),
            r@ == token@,
            final(self)@ == old(self)@.with_token(
                ConfirmTokenView { token: token@, path: path@, expires_at: expiry(now) },
            ),
    {
        let expires_at = if now <= i64::MAX - TOKEN_LIFETIME {
            now + TOKEN_LIFETIME
        } else {
            i64::MAX
        };
        let entry = ConfirmToken {
            token: String::from_str(token),
            path: String::from_str(path),
            expires_at,
        };
        let ghost before = self@;
        match self.find(token) {
            Some(i) => {
                self.confirm_tokens.set(i, entry);
                assert(self@.tokens =~= before.tokens.update(i as int, entry@));
                assert forall|a: int, b: int| 0 <= a < b < self@.tokens.len() implies (#[trigger] self@.tokens[a]).token
                    != (#[trigger] self@.tokens[b]).token by {
                    assert(self@.tokens[a].token == before.tokens[a].token);
                    assert(self@.tokens[b].token == before.tokens[b].token);
                }
            },
            None => {
                self.confirm_tokens.push(entry);
                assert(self@.tokens =~= before.tokens.push(entry@));
                assert forall|a: int, b: int| 0 <= a < b < self@.tokens.len() implies (#[trigger] self@.tokens[a]).token
                    != (#[trigger] self@.tokens[b]).token by {
                    if b == before.tokens.len() {
                        assert(!before.is_at(token@, a));
                    }
                }
            },
        }
        String::from_str(token)
    }

    /// Hands out a fresh random token as a confirmation for `path`, good for
    /// five minutes from now.
    pub fn generate_confirm_token(&mut self, path: &str) -> (r: String)
        requires
            old(self).wf(),
        ensures
            final(self).wf(),
            is_hyphenated_id(r@),
            exists|now: i64|
                final(self)@ == old(self)@.with_token(
                    ConfirmTokenView { token: r@, path: path@, expires_at: expiry(now) },
                ),
    {
        let token = random_uuid();
        let now = now_timestamp();
        self.generate_confirm_token_with(path, token.as_str(), now)
    }

    /// Uses up the token and says whether it confirms a request for `path`
    /// at `now`. A token is good once only: it is gone afterwards whether it
    /// confirmed or not.
    pub fn validate_confirm_token_at(&mut self, token: &str, path: &str, now: i64) -> (r: bool)
        requires
            old(self).wf(),
        ensures
            final(self).wf(),
            r == old(self)@.confirms(token@, path@, now),
            final(self)@ == old(self)@.without_token(token@),
    {
        match self.find(token) {
            Some(i) => {
                let ghost before = self@;
                let entry = self.confirm_tokens.remove(i);
                assert(self@.tokens =~= before.tokens.remove(i as int));
                assert(entry@ == before.tokens[i as int]);
                now < entry.expires_at && str_eq(entry.path.as_str(), path)
            },
            None => false,
        }
    }

    /// Uses up the token and says whether it confirms a request for `path`
    /// now.
    pub fn validate_confirm_token(&mut self, token: &str, path: &str) -> (r: bool)
        requires
            old(self).wf(),
        ensures
            final(self).wf(),
            final(self)@ == old(self)@.without_token(token@),
            exists|now: i64| r == old(self)@.confirms(token@, path@, now),
    {
        let now = now_timestamp();
        self.validate_confirm_token_at(token, path, now)
    }

    /// Forgets the confirmations that have expired by `now`.
    pub fn clean_expired_tokens_at(&mut self, now: i64)
        requires
            old(self).wf(),
        ensures
            final(self).wf(),
            final(self)@ == (TrashView {
                tokens: live_tokens(old(self)@.tokens, now, old(self)@.tokens.len()),
                ..old(self)@
            }),
    {
        let ghost before = self@;
        let mut kept: Vec<ConfirmToken> = Vec::new();
        let mut i: usize = 0;
        while i < self.confirm_tokens.len()
            invariant
                i <= self.confirm_tokens.len(),
                self@ == before,
                before.wf(),
                Seq::new(kept@.len(), |k: int| kept@[k]@) == live_tokens(before.tokens, now, i as nat),
                forall|k: int|
                    0 <= k < kept@.len() ==> exists|j: int|
                        0 <= j < i && (#[trigger] kept@[k])@ == before.tokens[j],
                forall|a: int, b: int|
                    0 <= a < b < kept@.len() ==> (#[trigger] kept@[a])@.token != (#[trigger] kept@[b])@.token,
            decreases self.confirm_tokens.len() - i,
        {
            let entry = &self.confirm_tokens[i];
            if entry.expires_at > now {
                let ghost views = Seq::new(kept@.len(), |k: int| kept@[k]@);
                let ghost old_kept = kept@;
                kept.push(
                    ConfirmToken {
                        token: entry.token.clone(),
                        path: entry.path.clone(),
                        expires_at: entry.expires_at,
                    },
                );
                assert(Seq::new(kept@.len(), |k: int| kept@[k]@) =~= views.push(before.tokens[i as int]));
                assert forall|k: int| 0 <= k < kept@.len() implies exists|j: int|
                    0 <= j < i + 1 && (#[trigger] kept@[k])@ == before.tokens[j] by {
                    if k < old_kept.len() {
                        assert(kept@[k] == old_kept[k]);
                        let j = choose|j: int| 0 <= j < i && old_kept[k]@ == before.tokens[j];
                        assert(kept@[k]@ == before.tokens[j]);
                    } else {
                        assert(kept@[k]@ == before.tokens[i as int]);
                    }
                }
                assert forall|a: int, b: int| 0 <= a < b < kept@.len() implies (#[trigger] kept@[a])@.token
                    != (#[trigger] kept@[b])@.token by {
                    if b == old_kept.len() {
                        assert(kept@[a] == old_kept[a]);
                        let j = choose|j: int| 0 <= j < i && old_kept[a]@ == before.tokens[j];
                        assert(before.tokens[j].token != before.tokens[i as int].token);
                    } else {
                        assert(kept@[a] == old_kept[a]);
                        assert(kept@[b] == old_kept[b]);
                    }
                }
            }
            i = i + 1;
        }
        self.confirm_tokens = kept;
        assert(self@.tokens =~= live_tokens(before.tokens, now, before.tokens.len()));
    }

    /// Forgets the confirmations that have expired by now.
    pub fn clean_expired_tokens(&mut self)
        requires
            old(self).wf(),
        ensures
            final(self).wf(),
            final(self)@.workspace == old(self)@.workspace,
            exists|now: i64|
                final(self)@.tokens == #[trigger] live_tokens(
                    old(self)@.tokens,
                    now,
                    old(self)@.tokens.len(),
                ),
    {
        let now = now_timestamp();
        self.clean_expired_tokens_at(now);
    }
}

/// A confirmation handed out at `now` confirms its own path until it
/// expires, and it does so once: after it is used it confirms nothing.
pub proof fn lemma_token_confirms_once(
    trash: TrashView,
    token: Seq<char>,
    path: Seq<char>,
    now: i64,
    later: i64,
)
    requires
        trash.wf(),
        later < expiry(now),
    ensures
        ({
            let entry = ConfirmTokenView { token, path, expires_at: expiry(now) };
            let handed = trash.with_token(entry);
            &&& handed.wf()
            &&& handed.confirms(token, path, later)
            &&& forall|other: Seq<char>| other != path ==> !handed.confirms(token, other, later)
            &&& !handed.without_token(token).holds(token)
            &&& forall|p: Seq<char>, t: i64| !handed.without_token(token).confirms(token, p, t)
        }),
{
    let entry = ConfirmTokenView { token, path, expires_at: expiry(now) };
    let handed = trash.with_token(entry);
    let at = if trash.holds(token) {
        trash.index_of(token)
    } else {
        trash.tokens.len() as int
    };
    if trash.holds(token) {
        assert(trash.is_at(token, at));
    }
    assert(handed.is_at(token, at));
    assert forall|i: int, j: int| 0 <= i < j < handed.tokens.len() implies (#[trigger] handed.tokens[i]).token
        != (#[trigger] handed.tokens[j]).token by {
        if trash.holds(token) {
            assert(handed.tokens[i].token == trash.tokens[i].token);
            assert(handed.tokens[j].token == trash.tokens[j].token);
        } else if j == trash.tokens.len() {
            assert(!trash.is_at(token, i));
        }
    }
    let k = handed.index_of(token);
    assert(handed.is_at(token, k));
    if k < at {
        assert(handed.tokens[k].token != handed.tokens[at].token);
    } else if at < k {
        assert(handed.tokens[at].token != handed.tokens[k].token);
    }
    let used = handed.without_token(token);
    if used.holds(token) {
        let u = used.index_of(token);
        assert(used.is_at(token, u));
        let u0 = if u < at { u } else { u + 1 };
        assert(used.tokens[u] == handed.tokens[u0]);
        if u0 < at {
            assert(handed.tokens[u0].token != handed.tokens[at].token);
        } else {
            assert(handed.tokens[at].token != handed.tokens[u0].token);
        }
    }
}

} // verus!
