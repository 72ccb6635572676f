//! Video records and the rules around them: which file names are accepted,
//! how an uploaded name is cleaned, and who may see or delete a video.
use vstd::prelude::*;
use vstd::string::*;

use sanitize_html::errors::SanitizeError;
use sanitize_html::rules::predefined::DEFAULT;
use sanitize_html::sanitize_str;

use crate::text::{chars_of, occurs_at, push_char, str_eq, string_of};
use crate::users::{random_text, user_is_admin, User, ADMIN_PERMISSION};

verus! {

/// The longest cleaned name, in characters, kept before the ending is added back.
pub const MAX_NAME_LENGTH: usize = 128;

/// Upload metadata sent with a video.
pub struct VideoInfo {
    pub name: Option<String>,
    pub description: Option<String>,
    pub share: Option<Vec<String>>,
}

/// Why an upload is refused.
#[derive(Debug, Clone, Copy, PartialEq, Eq, Structural)]
pub enum VideoError {
    /// The name could not be sanitized.
    SanitizeFailed,
    /// The name does not end in a known video extension.
    InvalidFilename,
}

impl VideoError {
    /// The status that answers the refusal.
    pub fn status(&self) -> (r: u16)
        ensures
            r == match self {
                VideoError::SanitizeFailed => 500u16,
                VideoError::InvalidFilename => 400u16,
            },
    {
        match self {
            VideoError::SanitizeFailed => 500,
            VideoError::InvalidFilename => 400,
        }
    }
}

/// The position of the last dot, or -1 when there is none.
pub open spec fn last_dot(s: Seq<char>) -> int
    decreases s.len(),
{
    if s.len() == 0 {
        -1
    } else if s.last() == '.' {
        s.len() - 1
    } else {
        last_dot(s.drop_last())
    }
}

/// The text after the last dot, if the name has a dot.
pub open spec fn filename_ending(s: Seq<char>) -> Option<Seq<char>> {
    if last_dot(s) >= 0 {
        Some(s.subrange(last_dot(s) + 1, s.len() as int))
    } else {
        None
    }
}

proof fn lemma_last_dot_bounds(s: Seq<char>)
    ensures
        -1 <= last_dot(s) < s.len(),
        last_dot(s) >= 0 ==> s[last_dot(s)] == '.',
        forall|k: int| last_dot(s) < k < s.len() ==> s[k] != '.',
    decreases s.len(),
{
    if s.len() > 0 && s.last() != '.' {
        lemma_last_dot_bounds(s.drop_last());
        assert forall|k: int| last_dot(s) < k < s.len() implies s[k] != '.' by {
            if k < s.len() - 1 {
                assert(s[k] == s.drop_last()[k]);
            }
        }
    }
}

/// The text after the last dot of a file name, if the name has a dot.
pub fn get_filename_ending(filename: &str) -> (r: Option<String>)
    ensures
        match r {
            Some(e) => filename_ending(filename@) == Some(e@),
            None => filename_ending(filename@) is None,
        },
{
    let s = chars_of(filename);
    let mut i: usize = s.len();
    assert(s@.subrange(0, i as int) =~= s@);
    while i > 0
        invariant
            s@ == filename@,
            i <= s@.len(),
            last_dot(s@) == last_dot(s@.subrange(0, i as int)),
        decreases i,
    {
        assert(s@.subrange(0, i as int).drop_last() =~= s@.subrange(0, i - 1));
        if s[i - 1] == '.' {
            return Some(string_of(&s, i, s.len()));
        }
        i = i - 1;
    }
    None
}

/// Whether a file ending names a video format this service stores.
pub open spec fn is_video_ending(e: Seq<char>) -> bool {
    ||| e == "mp4"@
    ||| e == "mkv"@
    ||| e == "avi"@
    ||| e == "mov"@
    ||| e == "wmv"@
    ||| e == "flv"@
    ||| e == "mpg"@
    ||| e == "mpeg"@
    ||| e == "m4v"@
    ||| e == "3gp"@
    ||| e == "webm"@
}

/// Whether a file name ends in a video format this service stores.
pub open spec fn valid_ending(s: Seq<char>) -> bool {
    filename_ending(s) matches Some(e) && is_video_ending(e)
}

/// Whether a file name ends in a video format this service stores.
pub fn valid_video_filename_ending(filename: &str) -> (r: bool)
    ensures
        r == valid_ending(filename@),
{
    let ending = match get_filename_ending(filename) {
        Some(e) => e,
        None => {
            return false;
        },
    };
    let e = ending.as_str();
    str_eq(e, "mp4") || str_eq(e, "mkv") || str_eq(e, "avi") || str_eq(e, "mov") || str_eq(e, "wmv")
        || str_eq(e, "flv") || str_eq(e, "mpg") || str_eq(e, "mpeg") || str_eq(e, "m4v") || str_eq(
        e,
        "3gp",
    ) || str_eq(e, "webm")
}

/// The text with every occurrence of `pat` taken out, scanning from the left
/// and never reusing a character of a match.
pub open spec fn without(s: Seq<char>, pat: Seq<char>) -> Seq<char>
    decreases s.len(),
{
    if s.len() == 0 {
        s
    } else if pat.len() > 0 && pat.len() <= s.len() && s.subrange(0, pat.len() as int) == pat {
        without(s.skip(pat.len() as int), pat)
    } else {
        seq![s[0]] + without(s.skip(1), pat)
    }
}

/// The text with every occurrence of `pat` taken out; see [`without`].
pub fn remove_all(text: &str, pat: &str) -> (r: String)
    ensures
        r@ == without(text@, pat@),
{
    let s = chars_of(text);
    let p = chars_of(pat);
    let mut out = String::new();
    let mut i: usize = 0;
    assert(s@.skip(0) =~= s@);
    assert(out@ + without(s@, p@) =~= without(s@, p@));
    while i < s.len()
        invariant
            s@ == text@,
            p@ == pat@,
            i <= s@.len(),
            out@ + without(s@.skip(i as int), p@) == without(s@, p@),
        decreases s@.len() - i,
    {
        let ghost rest = s@.skip(i as int);
        if p.len() > 0 && occurs_at(&s, i, &p) {
            assert(rest.subrange(0, p@.len() as int) =~= s@.subrange(i as int, i + p@.len()));
            assert(rest.skip(p@.len() as int) =~= s@.skip(i + p@.len()));
            i = i + p.len();
        } else {
            proof {
                assert(rest.skip(1) =~= s@.skip(i + 1));
                if p@.len() > 0 && p@.len() <= rest.len() {
                    assert(rest.subrange(0, p@.len() as int) =~= s@.subrange(i as int, i + p@.len()));
                }
            }
            let ghost before = out@;
            push_char(&mut out, s[i]);
            assert(out@ + without(s@.skip(i + 1), p@) =~= before + without(rest, p@));
            i = i + 1;
        }
    }
    assert(s@.skip(i as int) =~= Seq::<char>::empty());
    assert(out@ + without(s@.skip(i as int), p@) =~= out@);
    out
}

/// The error sanitize_html reports when it cannot sanitize a text.
#[verifier::external_type_specification]
#[verifier::external_body]
pub struct ExSanitizeError(SanitizeError);

/// What the HTML sanitizer makes of a text, or `None` when it fails on it.
pub uninterp spec fn sanitized_of(s: Seq<char>) -> Option<Seq<char>>;

/// Relies on sanitize_html's `sanitize_str` with its `DEFAULT` rules: the
/// outcome depends on the text alone.
#[verifier::external_body]
fn sanitize(s: &str) -> (r: Result<String, SanitizeError>)
    ensures
        match r {
            Ok(t) => sanitized_of(s@) == Some(t@),
            Err(_) => sanitized_of(s@) is None,
        },
{
    sanitize_str(&DEFAULT, s)
}

/// A name with parent-directory steps and slashes taken out.
pub open spec fn strip_path(s: Seq<char>) -> Seq<char> {
    without(without(s, ".."@), "/"@)
}

/// A name with parent-directory steps and slashes taken out.
pub fn strip_path_parts(s: &str) -> (r: String)
    ensures
        r@ == strip_path(s@),
{
    let a = remove_all(s, "..");
    remove_all(a.as_str(), "/")
}

/// The file name an upload is stored under, given what the sanitizer made
/// of the stripped name: stripped again, refused without a video ending,
/// and cut to the longest length with the ending put back when too long.
pub open spec fn stored_name(sanitized: Seq<char>) -> Result<Seq<char>, VideoError> {
    let n = strip_path(sanitized);
    if !valid_ending(n) {
        Err(VideoError::InvalidFilename)
    } else if n.len() > MAX_NAME_LENGTH {
        Ok(n.subrange(0, MAX_NAME_LENGTH as int) + filename_ending(n)->0)
    } else {
        Ok(n)
    }
}

/// The file name an upload is stored under; see [`stored_name`].
pub fn name_from_sanitized(sanitized: &str) -> (r: Result<String, VideoError>)
    ensures
        match r {
            Ok(n) => stored_name(sanitized@) == Ok::<Seq<char>, VideoError>(n@),
            Err(e) => stored_name(sanitized@) == Err::<Seq<char>, VideoError>(e),
        },
{
    let n = strip_path_parts(sanitized);
    if !valid_video_filename_ending(n.as_str()) {
        return Err(VideoError::InvalidFilename);
    }
    let ending = match get_filename_ending(n.as_str()) {
        Some(e) => e,
        None => {
            return Err(VideoError::InvalidFilename);
        },
    };
    let chars = chars_of(n.as_str());
    if chars.len() > MAX_NAME_LENGTH {
        let cut = string_of(&chars, 0, MAX_NAME_LENGTH);
        Ok(cut.concat(ending.as_str()))
    } else {
        Ok(n)
    }
}

/// The file name an uploaded video is stored under: the name is stripped of
/// path parts, sanitized, then handled as [`stored_name`] says.
pub fn clean_video_name(name: &str) -> (r: Result<String, VideoError>)
    ensures
        match sanitized_of(strip_path(name@)) {
            None => r == Err::<String, VideoError>(VideoError::SanitizeFailed),
            Some(t) => match r {
                Ok(n) => stored_name(t) == Ok::<Seq<char>, VideoError>(n@),
                Err(e) => stored_name(t) == Err::<Seq<char>, VideoError>(e),
            },
        },
{
    let stripped = strip_path_parts(name);
    match sanitize(stripped.as_str()) {
        Ok(t) => name_from_sanitized(t.as_str()),
        Err(_) => Err(VideoError::SanitizeFailed),
    }
}

/// The length of a generated video id.
pub const VIDEO_ID_LENGTH: usize = 32;

/// The characters a generated video id is drawn from.
pub const VIDEO_ID_CHARSET: &'static str =
    "ABCDEFGHIJKLMNOPQRSTUVWXYZabcdefghijklmnopqrstuvwxyz0123456789)(*&^%$#@!~";

/// How many random video ids are drawn before giving up on finding a free one.
pub const MAX_VIDEO_ID_ATTEMPTS: usize = 16;

/// A stored video.
#[derive(Debug, Clone)]
pub struct Video {
    pub id: i32,
    pub video_id: String,
    pub video_path: String,
    pub video_name: String,
    pub video_length: i32,
    pub video_desc: String,
    pub owner_id: i32,
    pub thumbnail_path: Option<String>,
}

/// A video record before the store has numbered it.
#[derive(Debug, Clone)]
pub struct VideoNoId {
    pub video_id: String,
    pub video_path: String,
    pub video_name: String,
    pub video_length: i32,
    pub video_desc: String,
    pub owner_id: i32,
    pub thumbnail_path: Option<String>,
}

/// What a video record holds.
pub ghost struct VideoView {
    pub id: i32,
    pub video_id: Seq<char>,
    pub video_path: Seq<char>,
    pub video_name: Seq<char>,
    pub video_length: i32,
    pub video_desc: Seq<char>,
    pub owner_id: i32,
    pub thumbnail_path: Option<Seq<char>>,
}

/// An optional text, as plain values.
pub open spec fn opt_view(s: Option<String>) -> Option<Seq<char>> {
    match s {
        Some(t) => Some(t@),
        None => None,
    }
}

impl View for Video {
    type V = VideoView;

    open spec fn view(&self) -> VideoView {
        VideoView {
            id: self.id,
            video_id: self.video_id@,
            video_path: self.video_path@,
            video_name: self.video_name@,
            video_length: self.video_length,
            video_desc: self.video_desc@,
            owner_id: self.owner_id,
            thumbnail_path: opt_view(self.thumbnail_path),
        }
    }
}

impl VideoNoId {
    /// The stored record this one becomes under a numeric id.
    pub open spec fn numbered(self, id: i32) -> VideoView {
        VideoView {
            id,
            video_id: self.video_id@,
            video_path: self.video_path@,
            video_name: self.video_name@,
            video_length: self.video_length,
            video_desc: self.video_desc@,
            owner_id: self.owner_id,
            thumbnail_path: opt_view(self.thumbnail_path),
        }
    }
}

/// Whether no two records share a numeric id or a video id.
pub open spec fn videos_distinct(videos: Seq<VideoView>) -> bool {
    forall|i: int, j: int|
        #![trigger videos[i], videos[j]]
        0 <= i < videos.len() && 0 <= j < videos.len() && i != j ==> {
            &&& videos[i].id != videos[j].id
            &&& videos[i].video_id != videos[j].video_id
        }
}

/// Whether some record has the video id.
pub open spec fn has_video_id(videos: Seq<VideoView>, video_id: Seq<char>) -> bool {
    exists|i: int| 0 <= i < videos.len() && #[trigger] videos[i].video_id == video_id
}

/// The largest numeric id of the records, or 0 when there is none.
pub open spec fn max_video_id(videos: Seq<VideoView>) -> int
    decreases videos.len(),
{
    if videos.len() == 0 {
        0
    } else {
        let rest = max_video_id(videos.drop_last());
        if videos.last().id > rest {
            videos.last().id as int
        } else {
            rest
        }
    }
}

proof fn lemma_max_video_id_bounds(videos: Seq<VideoView>)
    ensures
        max_video_id(videos) >= 0,
        forall|i: int| 0 <= i < videos.len() ==> #[trigger] videos[i].id <= max_video_id(videos),
    decreases videos.len(),
{
    if videos.len() > 0 {
        lemma_max_video_id_bounds(videos.drop_last());
        assert forall|i: int| 0 <= i < videos.len() implies #[trigger] videos[i].id
            <= max_video_id(videos) by {
            if i < videos.len() - 1 {
                assert(videos[i] == videos.drop_last()[i]);
            }
        }
    }
}

/// The views of a list of records.
pub open spec fn video_views(v: Seq<Video>) -> Seq<VideoView> {
    v.map_values(|x: Video| x@)
}

/// The stored videos.
pub struct VideoCatalog {
    videos: Vec<Video>,
}

impl View for VideoCatalog {
    type V = Seq<VideoView>;

    closed spec fn view(&self) -> Seq<VideoView> {
        video_views(self.videos@)
    }
}

impl VideoCatalog {
    /// Whether the catalog is consistent: no two records share a numeric id
    /// or a video id.
    pub open spec fn wf(&self) -> bool {
        videos_distinct(self@)
    }

    /// An empty catalog.
    pub fn new() -> (r: VideoCatalog)
        ensures
            r.wf(),
            r@ == Seq::<VideoView>::empty(),
    {
        let r = VideoCatalog { videos: Vec::new() };
        assert(r@ =~= Seq::<VideoView>::empty());
        r
    }

    /// A catalog over existing records, if they are consistent.
    pub fn from_records(videos: Vec<Video>) -> (r: Option<VideoCatalog>)
        ensures
            r is Some <==> videos_distinct(video_views(videos@)),
            r matches Some(c) ==> c.wf() && c@ == video_views(videos@),
    {
        let n = videos.len();
        let ghost v = video_views(videos@);
        let mut i: usize = 0;
        while i < n
            invariant
                n == videos@.len(),
                v == video_views(videos@),
                i <= n,
                forall|a: int, b: int|
                    #![trigger v[a], v[b]]
                    0 <= a < i && 0 <= b < n && a != b ==> {
                        &&& v[a].id != v[b].id
                        &&& v[a].video_id != v[b].video_id
                    },
            decreases n - i,
        {
            let mut j: usize = 0;
            while j < n
                invariant
                    n == videos@.len(),
                    v == video_views(videos@),
                    i < n,
                    j <= n,
                    forall|a: int, b: int|
                        #![trigger v[a], v[b]]
                        0 <= a < i && 0 <= b < n && a != b ==> {
                            &&& v[a].id != v[b].id
                            &&& v[a].video_id != v[b].video_id
                        },
                    forall|b: int|
                        0 <= b < j && i != b ==> {
                            &&& v[i as int].id != (#[trigger] v[b]).id
                            &&& v[i as int].video_id != v[b].video_id
                        },
                decreases n - j,
            {
                if i != j {
                    let a = &videos[i];
                    let b = &videos[j];
                    proof {
                        assert(v[i as int] == videos@[i as int]@);
                        assert(v[j as int] == videos@[j as int]@);
                    }
                    if a.id == b.id || str_eq(a.video_id.as_str(), b.video_id.as_str()) {
                        assert(!videos_distinct(v)) by {
                            assert(v.len() == n);
                            assert(0 <= i < v.len() && 0 <= j < v.len() && i != j);
                        }
                        return None;
                    }
                    assert(v[i as int].id != v[j as int].id);
                    assert(v[i as int].video_id != v[j as int].video_id);
                }
                j = j + 1;
            }
            i = i + 1;
        }
        let c = VideoCatalog { videos };
        assert(c@ == v);
        Some(c)
    }

    /// In a consistent catalog, a record is the only one with its video id.
    pub proof fn lemma_video_id_identifies(&self, v: VideoView)
        requires
            self.wf(),
            self@.contains(v),
        ensures
            forall|i: int| 0 <= i < self@.len() && #[trigger] self@[i].video_id == v.video_id ==> self@[i] == v,
    {
        let j = choose|j: int| 0 <= j < self@.len() && self@[j] == v;
        assert forall|i: int| 0 <= i < self@.len() && #[trigger] self@[i].video_id == v.video_id implies self@[i] == v by {
            if i != j {
                assert(self@[i].video_id != self@[j].video_id);
            }
        }
    }

    /// The number of videos.
    pub fn len(&self) -> (r: usize)
        ensures
            r == self@.len(),
    {
        self.videos.len()
    }

    /// The video at a position.
    pub fn get(&self, i: usize) -> (r: &Video)
        requires
            i < self@.len(),
        ensures
            r@ == self@[i as int],
    {
        &self.videos[i]
    }

    /// The position of the record with a video id, if any.
    fn index_of_video_id(&self, video_id: &str) -> (r: Option<usize>)
        ensures
            match r {
                Some(i) => i < self@.len() && self@[i as int].video_id == video_id@,
                None => !has_video_id(self@, video_id@),
            },
    {
        let mut i: usize = 0;
        while i < self.videos.len()
            invariant
                i <= self@.len(),
                self@.len() == self.videos@.len(),
                forall|k: int| 0 <= k < i ==> #[trigger] self@[k].video_id != video_id@,
            decreases self@.len() - i,
        {
            if str_eq(self.videos[i].video_id.as_str(), video_id) {
                return Some(i);
            }
            i = i + 1;
        }
        None
    }

    /// The largest numeric id, or 0 for an empty catalog.
    fn largest_id(&self) -> (r: i32)
        ensures
            r == max_video_id(self@),
    {
        let mut m: i32 = 0;
        let mut i: usize = 0;
        while i < self.videos.len()
            invariant
                i <= self@.len(),
                self@.len() == self.videos@.len(),
                m == max_video_id(self@.subrange(0, i as int)),
            decreases self@.len() - i,
        {
            assert(self@.subrange(0, i + 1).drop_last() =~= self@.subrange(0, i as int));
            if self.videos[i].id > m {
                m = self.videos[i].id;
            }
            i = i + 1;
        }
        assert(self@.subrange(0, i as int) =~= self@);
        m
    }
}

/// A copy of a video record.
pub fn copy_video(v: &Video) -> (r: Video)
    ensures
        r@ == v@,
{
    Video {
        id: v.id,
        video_id: v.video_id.clone(),
        video_path: v.video_path.clone(),
        video_name: v.video_name.clone(),
        video_length: v.video_length,
        video_desc: v.video_desc.clone(),
        owner_id: v.owner_id,
        thumbnail_path: match &v.thumbnail_path {
            Some(t) => Some(t.clone()),
            None => None,
        },
    }
}

/// The video with a video id, if any.
pub fn get_video_by_id<'a>(catalog: &'a VideoCatalog, video_id: &str) -> (r: Option<&'a Video>)
    ensures
        match r {
            Some(v) => catalog@.contains(v@) && v@.video_id == video_id@,
            None => !has_video_id(catalog@, video_id@),
        },
{
    match catalog.index_of_video_id(video_id) {
        Some(i) => Some(catalog.get(i)),
        None => None,
    }
}

/// Every video, in the order they were added.
pub fn get_all_videos(catalog: &VideoCatalog) -> (r: &Vec<Video>)
    ensures
        video_views(r@) == catalog@,
{
    &catalog.videos
}

/// Whether a text can stand as a generated video id.
pub open spec fn valid_video_id(s: Seq<char>) -> bool {
    s.len() == VIDEO_ID_LENGTH && forall|k: int| 0 <= k < s.len() ==> VIDEO_ID_CHARSET@.contains(
        #[trigger] s[k],
    )
}

/// Whether no video holds a video id of the generated shape, so that no
/// freshly drawn video id can collide with one.
pub open spec fn no_generated_video_ids(videos: Seq<VideoView>) -> bool {
    forall|i: int| 0 <= i < videos.len() ==> !valid_video_id(#[trigger] videos[i].video_id)
}

/// A fresh video id: random, and held by no video. Gives up, with `None`,
/// after a bounded number of draws that all collided; when no video holds
/// an id of the generated shape, the first draw is taken.
pub fn generate_new_video_id(catalog: &VideoCatalog) -> (r: Option<String>)
    ensures
        r matches Some(id) ==> valid_video_id(id@) && !has_video_id(catalog@, id@),
        no_generated_video_ids(catalog@) ==> r is Some,
{
    proof {
        reveal_strlit("ABCDEFGHIJKLMNOPQRSTUVWXYZabcdefghijklmnopqrstuvwxyz0123456789)(*&^%$#@!~");
    }
    let mut attempt: usize = 0;
    while attempt < MAX_VIDEO_ID_ATTEMPTS
        invariant
            VIDEO_ID_CHARSET@.len() > 0,
            no_generated_video_ids(catalog@) ==> attempt == 0,
        decreases MAX_VIDEO_ID_ATTEMPTS - attempt,
    {
        let candidate = random_text(VIDEO_ID_CHARSET, VIDEO_ID_LENGTH);
        match catalog.index_of_video_id(candidate.as_str()) {
            None => {
                return Some(candidate);
            },
            Some(i) => {
                assert(valid_video_id(catalog@[i as int].video_id));
                assert(!no_generated_video_ids(catalog@));
            },
        }
        attempt = attempt + 1;
    }
    None
}

/// Stores a video under the next numeric id, one past the largest. Fails,
/// leaving the catalog as it was, exactly when its video id is taken or the
/// numeric ids are used up.
pub fn insert_new_video(catalog: &mut VideoCatalog, video: VideoNoId) -> (r: Option<Video>)
    requires
        old(catalog).wf(),
    ensures
        final(catalog).wf(),
        r is Some <==> !has_video_id(old(catalog)@, video.video_id@) && max_video_id(old(catalog)@)
            < i32::MAX,
        match r {
            Some(v) => v@ == video.numbered((max_video_id(old(catalog)@) + 1) as i32)
                && final(catalog)@ == old(catalog)@.push(v@),
            None => final(catalog)@ == old(catalog)@,
        },
{
    if catalog.index_of_video_id(video.video_id.as_str()).is_some() {
        return None;
    }
    let largest = catalog.largest_id();
    if largest == i32::MAX {
        return None;
    }
    proof {
        lemma_max_video_id_bounds(catalog@);
    }
    let id = largest + 1;
    let stored = Video {
        id,
        video_id: video.video_id.clone(),
        video_path: video.video_path.clone(),
        video_name: video.video_name.clone(),
        video_length: video.video_length,
        video_desc: video.video_desc.clone(),
        owner_id: video.owner_id,
        thumbnail_path: video.thumbnail_path.clone(),
    };
    let returned = Video {
        id,
        video_id: video.video_id,
        video_path: video.video_path,
        video_name: video.video_name,
        video_length: video.video_length,
        video_desc: video.video_desc,
        owner_id: video.owner_id,
        thumbnail_path: video.thumbnail_path,
    };
    let ghost before = catalog@;
    catalog.videos.push(stored);
    proof {
        assert(catalog@ =~= before.push(returned@));
        let after = catalog@;
        assert forall|a: int, b: int|
            #![trigger after[a], after[b]]
            0 <= a < after.len() && 0 <= b < after.len() && a != b implies {
            &&& after[a].id != after[b].id
            &&& after[a].video_id != after[b].video_id
        } by {
            let last = before.len() as int;
            if a == last {
                assert(before[b] == after[b]);
            } else if b == last {
                assert(before[a] == after[a]);
            } else {
                assert(before[a] == after[a] && before[b] == after[b]);
            }
        }
    }
    Some(returned)
}

/// Removes the video with a numeric id. Reports whether there was one.
pub fn delete_video_with_id(catalog: &mut VideoCatalog, id: i32) -> (r: bool)
    requires
        old(catalog).wf(),
    ensures
        final(catalog).wf(),
        r == exists|i: int| 0 <= i < old(catalog)@.len() && #[trigger] old(catalog)@[i].id == id,
        r ==> exists|i: int|
            0 <= i < old(catalog)@.len() && #[trigger] old(catalog)@[i].id == id && final(catalog)@
                == old(catalog)@.remove(i),
        !r ==> final(catalog)@ == old(catalog)@,
{
    let mut i: usize = 0;
    while i < catalog.videos.len()
        invariant
            i <= catalog@.len(),
            catalog@.len() == catalog.videos@.len(),
            catalog@ == old(catalog)@,
            old(catalog).wf(),
            forall|k: int| 0 <= k < i ==> #[trigger] catalog@[k].id != id,
        decreases catalog@.len() - i,
    {
        if catalog.videos[i].id == id {
            let ghost before = catalog@;
            catalog.videos.remove(i);
            proof {
                assert(catalog@ =~= before.remove(i as int));
                let after = catalog@;
                assert forall|a: int, b: int|
                    #![trigger after[a], after[b]]
                    0 <= a < after.len() && 0 <= b < after.len() && a != b implies {
                    &&& after[a].id != after[b].id
                    &&& after[a].video_id != after[b].video_id
                } by {
                    let a2 = if a < i { a } else { a + 1 };
                    let b2 = if b < i { b } else { b + 1 };
                    assert(after[a] == before[a2] && after[b] == before[b2]);
                }
                assert(before[i as int].id == id);
            }
            return true;
        }
        i = i + 1;
    }
    false
}

/// Whether a user may watch, see or delete a video: its owner may, and so
/// may an administrator.
pub open spec fn may_access(user: crate::users::UserView, video: VideoView) -> bool {
    video.owner_id == user.id || user.permissions.contains(ADMIN_PERMISSION)
}

/// Whether a user may watch, see or delete a video; see [`may_access`].
pub fn may_access_video(user: &User, video: &Video) -> (r: bool)
    ensures
        r == may_access(user@, video@),
{
    video.owner_id == user.id || user_is_admin(user)
}

/// The value of a text in decimal notation: an optional sign followed by at
/// least one digit, when the value fits an `i32`.
pub open spec fn decimal_i32(s: Seq<char>) -> Option<i32> {
    let digits = if s.len() > 0 && (s[0] == '-' || s[0] == '+') {
        s.skip(1)
    } else {
        s
    };
    let magnitude = digits_value(digits);
    let v = if s.len() > 0 && s[0] == '-' {
        -magnitude
    } else {
        magnitude
    };
    if digits.len() > 0 && (forall|k: int| 0 <= k < digits.len() ==> is_digit(#[trigger] digits[k]))
        && i32::MIN <= v <= i32::MAX {
        Some(v as i32)
    } else {
        None
    }
}

/// Whether a character is a decimal digit.
pub open spec fn is_digit(c: char) -> bool {
    '0' <= c <= '9'
}

/// The value of a string of decimal digits.
pub open spec fn digits_value(s: Seq<char>) -> int
    decreases s.len(),
{
    if s.len() == 0 {
        0
    } else {
        digits_value(s.drop_last()) * 10 + (s.last() as int - '0' as int)
    }
}

/// The length a probe's duration gives: its value as a whole number of
/// seconds, or -1.
pub open spec fn length_of(duration: Option<Seq<char>>) -> i32 {
    match duration {
        Some(d) => match decimal_i32(d) {
            Some(v) => v,
            None => -1i32,
        },
        None => -1i32,
    }
}

/// Relies on `str::parse::<i32>`: an optional `+` or `-` sign followed by
/// decimal digits, whose value must fit an `i32`.
#[verifier::external_body]
fn parse_i32(s: &str) -> (r: Option<i32>)
    ensures
        r == decimal_i32(s@),
{
    s.parse::<i32>().ok()
}

/// The length of a video in whole seconds from the duration its probe
/// reported, or -1 when there was none or it is not a whole number.
pub fn video_length(duration: Option<&str>) -> (r: i32)
    ensures
        r == length_of(
            match duration {
                Some(d) => Some(d@),
                None => None,
            },
        ),
{
    match duration {
        Some(d) => match parse_i32(d) {
            Some(v) => v,
            None => -1,
        },
        None => -1,
    }
}

/// Records an uploaded video for its owner under a fresh video id. Fails,
/// with the catalog as it was, when no free video id was found or the
/// numeric ids are used up; it succeeds while a numeric id is left and no
/// video holds an id of the generated shape.
pub fn add_uploaded_video(
    catalog: &mut VideoCatalog,
    owner: &User,
    video_path: String,
    video_name: String,
    duration: Option<&str>,
) -> (r: Option<Video>)
    requires
        old(catalog).wf(),
    ensures
        final(catalog).wf(),
        no_generated_video_ids(old(catalog)@) && max_video_id(old(catalog)@) < i32::MAX ==> r is Some,
        match r {
            Some(v) => {
                &&& final(catalog)@ == old(catalog)@.push(v@)
                &&& !has_video_id(old(catalog)@, v@.video_id)
                &&& valid_video_id(v@.video_id)
                &&& v@.id == max_video_id(old(catalog)@) + 1
                &&& v@.owner_id == owner@.id
                &&& v@.video_path == video_path@
                &&& v@.video_name == video_name@
                &&& v@.video_length == length_of(
                    match duration {
                        Some(d) => Some(d@),
                        None => None,
                    },
                )
                &&& v@.video_desc == Seq::<char>::empty()
                &&& v@.thumbnail_path is None
            },
            None => final(catalog)@ == old(catalog)@,
        },
{
    let video_id = match generate_new_video_id(catalog) {
        Some(id) => id,
        None => {
            return None;
        },
    };
    let video = VideoNoId {
        video_id,
        video_path,
        video_name,
        video_length: video_length(duration),
        video_desc: String::new(),
        owner_id: owner.id,
        thumbnail_path: None,
    };
    insert_new_video(catalog, video)
}

} // verus!
