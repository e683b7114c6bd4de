use vstd::prelude::*;

verus! {

/// Whether `s` occurs in `t` as a contiguous run.
pub open spec fn is_substring(s: Seq<char>, t: Seq<char>) -> bool {
    exists|i: int| 0 <= i && i + s.len() <= t.len() && #[trigger] t.subrange(i, i + s.len()) == s
}

/// The final component of `path`, as `std::path::Path::file_name` gives it.
///
/// What the component of a general path is depends on the platform's path rules, so the contract
/// says of every path only what holds on every platform: the name is a piece of the path, and
/// where the path holds no `\` (so that no platform reads a verbatim prefix) it holds no `/`.
/// Of a path with a portable name (`has_portable_name`), which every platform splits the same
/// way, it says that the file name is that name. Which piece it is for other paths, and when there
/// is none, is left unsaid.
#[verifier::external_body]
fn path_file_name(path: &str) -> (r: Option<String>)
    ensures
        r matches Some(n) ==> is_substring(n@, path@),
        r matches Some(n) ==> (has_backslash(path@) || !n@.contains('/')),
        match r {
            Some(n) => has_portable_name(path@) ==> n@ == portable_name(path@),
            None => !has_portable_name(path@),
        },
{
    std::path::Path::new(path).file_name().and_then(|s| s.to_str()).map(|s| s.to_string())
}

/// Whether `s` holds a `\`, which a platform may read as a separator or a verbatim prefix.
pub open spec fn has_backslash(s: Seq<char>) -> bool {
    s.contains('\\')
}

/// A path that is one plain name: not empty, not `.` or `..`, and without `/`, `\` or `:`, so
/// that on every platform it is a single normal component and so its own file name.
pub open spec fn is_plain_name(p: Seq<char>) -> bool {
    &&& p.len() > 0
    &&& p != seq!['.']
    &&& p != seq!['.', '.']
    &&& !p.contains('/')
    &&& !p.contains('\\')
    &&& !p.contains(':')
}

/// The index of the last `c` in `s`, or -1 where there is none.
pub open spec fn last_index(s: Seq<char>, c: char) -> int
    decreases s.len(),
{
    if s.len() == 0 {
        -1
    } else if s.last() == c {
        s.len() - 1
    } else {
        last_index(s.drop_last(), c)
    }
}

/// A path whose final component every platform reads alike: a plain name, or a directory part, a
/// `/` and a plain name, where the directory part holds no `\` or `:` and does not start with `/`
/// (so that no platform reads a prefix into it).
pub open spec fn has_portable_name(path: Seq<char>) -> bool {
    let i = last_index(path, '/');
    if i < 0 {
        is_plain_name(path)
    } else {
        let dir = path.subrange(0, i);
        &&& is_plain_name(path.subrange(i + 1, path.len() as int))
        &&& !dir.contains('\\')
        &&& !dir.contains(':')
        &&& !(dir.len() > 0 && dir[0] == '/')
    }
}

/// The part of `path` after its last `/` (all of it where there is none).
pub open spec fn portable_name(path: Seq<char>) -> Seq<char> {
    path.subrange(last_index(path, '/') + 1, path.len() as int)
}

/// The extension of a file name as `Path::extension` documents it: none where the name holds no
/// `.`, none where its only `.` is the first character, else what follows the last `.`.
pub open spec fn spec_name_extension(n: Seq<char>) -> Option<Seq<char>> {
    let i = last_index(n, '.');
    if i <= 0 {
        None
    } else {
        Some(n.subrange(i + 1, n.len() as int))
    }
}

/// The extension of `path`, as `std::path::Path::extension` gives it.
///
/// What the extension of a general path is depends on the platform's path rules, so the contract
/// says of every path only what holds on every platform: it is a piece of the path holding no
/// `.`, and where the path holds no `\` (so that no platform reads a verbatim prefix) no `/`
/// either. Of a path with a portable name (`has_portable_name`), whose file name is that name on
/// every platform, it says what the documentation of `Path::extension` gives of that name:
/// nothing without an embedded `.`, nothing where the name begins with its only `.`, else the part
/// after the last `.`. Which piece it is for other paths is left unsaid.
#[verifier::external_body]
fn path_extension(path: &str) -> (r: Option<String>)
    ensures
        r matches Some(e) ==> is_substring(e@, path@) && !e@.contains('.'),
        r matches Some(e) ==> (has_backslash(path@) || !e@.contains('/')),
        has_portable_name(path@) ==> match r {
            Some(e) => spec_name_extension(portable_name(path@)) == Some(e@),
            None => spec_name_extension(portable_name(path@)) is None,
        },
{
    std::path::Path::new(path).extension().and_then(|s| s.to_str()).map(|s| s.to_string())
}

/// `s` in lower case, as `str::to_lowercase` gives it.
pub uninterp spec fn spec_lowercase(s: Seq<char>) -> Seq<char>;

/// `str::to_lowercase`: the result is the Unicode lower case of `s`, named by `spec_lowercase`.
#[verifier::external_body]
fn lowercase(s: &str) -> (r: String)
    ensures
        r@ == spec_lowercase(s@),
{
    s.to_lowercase()
}

/// Compares two strings character by character.
pub fn str_eq(a: &str, b: &str) -> (r: bool)
    ensures
        r == (a@ == b@),
{
    let n = a.unicode_len();
    let m = b.unicode_len();
    if n != m {
        return false;
    }
    let mut i: usize = 0;
    while i < n
        invariant
            n == a@.len(),
            m == b@.len(),
            n == m,
            i <= n,
            forall|j: int| 0 <= j < i ==> a@[j] == b@[j],
        decreases n - i,
    {
        if a.get_char(i) != b.get_char(i) {
            return false;
        }
        i = i + 1;
    }
    assert(a@ =~= b@);
    true
}

/// The file extensions that the player opens.
pub open spec fn spec_supported_extensions() -> Seq<Seq<char>> {
    seq![
        seq!['a', 'i', 'f'],
        seq!['a', 'i', 'f', 'f'],
        seq!['c', 'a', 'f'],
        seq!['m', 'p', '4'],
        seq!['m', '4', 'a'],
        seq!['m', '4', 'p'],
        seq!['m', '4', 'b'],
        seq!['m', '4', 'r'],
        seq!['m', '4', 'v'],
        seq!['m', 'o', 'v'],
        seq!['m', 'k', 'v'],
        seq!['w', 'e', 'b', 'm'],
        seq!['o', 'g', 'g'],
        seq!['w', 'a', 'v'],
        seq!['a', 'a', 'c'],
        seq!['f', 'l', 'a', 'c'],
        seq!['m', 'p', '1'],
        seq!['m', 'p', '2'],
        seq!['m', 'p', '3'],
        seq!['m', 'p', 'a'],
        seq!['o', 'p', 'u', 's'],
        seq!['w', 'v'],
    ]
}

/// The supported extensions, in the order of `spec_supported_extensions`.
pub fn supported_extensions() -> (r: Vec<&'static str>)
    ensures
        r@.len() == spec_supported_extensions().len(),
        forall|i: int| 0 <= i < r@.len() ==> #[trigger] r@[i]@ == spec_supported_extensions()[i],
{
    proof {
        reveal_strlit("aif");
        reveal_strlit("aiff");
        reveal_strlit("caf");
        reveal_strlit("mp4");
        reveal_strlit("m4a");
        reveal_strlit("m4p");
        reveal_strlit("m4b");
        reveal_strlit("m4r");
        reveal_strlit("m4v");
        reveal_strlit("mov");
        reveal_strlit("mkv");
        reveal_strlit("webm");
        reveal_strlit("ogg");
        reveal_strlit("wav");
        reveal_strlit("aac");
        reveal_strlit("flac");
        reveal_strlit("mp1");
        reveal_strlit("mp2");
        reveal_strlit("mp3");
        reveal_strlit("mpa");
        reveal_strlit("opus");
        reveal_strlit("wv");
    }
    let r = vec![
        "aif", "aiff", "caf", "mp4", "m4a", "m4p", "m4b", "m4r", "m4v", "mov", "mkv", "webm", "ogg",
        "wav", "aac", "flac", "mp1", "mp2", "mp3", "mpa", "opus", "wv",
    ];
    assert(forall|i: int| 0 <= i < r@.len() ==> #[trigger] r@[i]@ == spec_supported_extensions()[i]);
    r
}

/// Whether `ext` is one of the supported extensions (letter case counts).
pub fn is_supported_extension(ext: &str) -> (r: bool)
    ensures
        r == spec_supported_extensions().contains(ext@),
{
    let list = supported_extensions();
    let mut i: usize = 0;
    while i < list.len()
        invariant
            i <= list@.len(),
            list@.len() == spec_supported_extensions().len(),
            forall|k: int| 0 <= k < list@.len() ==> #[trigger] list@[k]@ == spec_supported_extensions()[k],
            forall|k: int| 0 <= k < i ==> spec_supported_extensions()[k] != ext@,
        decreases list@.len() - i,
    {
        if str_eq(list[i], ext) {
            assert(spec_supported_extensions()[i as int] == ext@);
            return true;
        }
        i = i + 1;
    }
    assert(!spec_supported_extensions().contains(ext@)) by {
        if spec_supported_extensions().contains(ext@) {
            let k = choose|k: int|
                0 <= k < spec_supported_extensions().len() && spec_supported_extensions()[k]
                    == ext@;
            assert(spec_supported_extensions()[k] != ext@);
        }
    }
    false
}

/// Whether an extension, as the path gave it, is one of the supported ones (letter case counts).
pub fn extension_is_supported(ext: &Option<String>) -> (r: bool)
    ensures
        r == (ext matches Some(e) && spec_supported_extensions().contains(e@)),
{
    match ext {
        Some(e) => is_supported_extension(e.as_str()),
        None => false,
    }
}

/// Whether the player opens files with this path: its extension must be one of the supported
/// ones, letter case counting.
pub fn filter_valid_extension(path: &String) -> (r: bool)
    ensures
        r ==> (exists|e: Seq<char>| {
            &&& spec_supported_extensions().contains(e)
            &&& is_substring(e, path@)
        }),
        has_portable_name(path@) ==> r == (spec_name_extension(portable_name(path@)) matches Some(e)
            && spec_supported_extensions().contains(e)),
{
    let ext = path_extension(path.as_str());
    let ok = extension_is_supported(&ext);
    if ok {
        assert(is_substring(ext->0@, path@));
    }
    ok
}

/// Whether a command-line argument whose extension, as the path gave it, is `ext` names a file to
/// play: the extension is a supported one in any letter case, and the argument is not the
/// player's own executable.
pub fn argument_is_accepted(arg: &String, ext: &Option<String>, current_exe_path: &str) -> (r: bool)
    ensures
        r == (ext matches Some(e) && spec_supported_extensions().contains(spec_lowercase(e@))
            && arg@ != current_exe_path@),
{
    let ok = match ext {
        Some(e) => {
            let lower = lowercase(e.as_str());
            is_supported_extension(lower.as_str())
        },
        None => false,
    };
    ok && !str_eq(arg.as_str(), current_exe_path)
}

/// Whether a command-line argument names a file to play: one with a supported extension in any
/// letter case, other than the player's own executable.
pub fn accepts_argument(arg: &String, current_exe_path: &str) -> (r: bool)
    ensures
        r ==> arg@ != current_exe_path@,
        r ==> (exists|e: Seq<char>| {
            &&& spec_supported_extensions().contains(spec_lowercase(e))
            &&& is_substring(e, arg@)
        }),
        has_portable_name(arg@) ==> r == (spec_name_extension(portable_name(arg@)) matches Some(e)
            && spec_supported_extensions().contains(spec_lowercase(e)) && arg@
            != current_exe_path@),
{
    let ext = path_extension(arg.as_str());
    let ok = argument_is_accepted(arg, &ext, current_exe_path);
    if ok {
        assert(is_substring(ext->0@, arg@));
    }
    ok
}

/// The standard tags that the play list shows.
#[derive(Clone, Copy, Debug, PartialEq, Eq, Structural)]
pub enum TagKey {
    Album,
    Artist,
    TrackTitle,
    Other,
}

/// One tag of a file: its standard key, where it has one, and its text, where it is text.
pub struct TagEntry {
    pub std_key: Option<TagKey>,
    pub value: Option<String>,
}

/// The view of the tags: key and text of each, in order.
pub open spec fn tags_view(tags: Seq<TagEntry>) -> Seq<(Option<TagKey>, Option<Seq<char>>)> {
    tags.map_values(
        |t: TagEntry|
            (
                t.std_key,
                match t.value {
                    Some(s) => Some(s@),
                    None => None,
                },
            ),
    )
}

/// What the last tag with `key` says, where there is one: a later tag overrides an earlier one,
/// and a tag that is not text clears the field.
pub open spec fn spec_tag_field(tags: Seq<(Option<TagKey>, Option<Seq<char>>)>, key: TagKey) -> Option<
    Seq<char>,
>
    decreases tags.len(),
{
    if tags.len() == 0 {
        None
    } else if tags.last().0 == Some(key) {
        tags.last().1
    } else {
        spec_tag_field(tags.drop_last(), key)
    }
}

pub open spec fn opt_view(o: Option<String>) -> Option<Seq<char>> {
    match o {
        Some(s) => Some(s@),
        None => None,
    }
}

/// The name shown in the play list: "title [artist]", or the title alone, or, without a title,
/// the file name.
pub open spec fn spec_disp_name(
    title: Option<Seq<char>>,
    artist: Option<Seq<char>>,
    file_name: Seq<char>,
) -> Seq<char> {
    match (title, artist) {
        (Some(t), Some(a)) => t + seq![' ', '['] + a + seq![']'],
        (Some(t), None) => t,
        (None, _) => file_name,
    }
}

/// A file of the play list and what its tags say.
pub struct AudioFileInfo {
    pub file_path: String,
    pub title: Option<String>,
    pub album_name: Option<String>,
    pub artist_name: Option<String>,
    pub disp_name: String,
}

fn clone_opt(o: &Option<String>) -> (r: Option<String>)
    ensures
        opt_view(r) == opt_view(*o),
{
    match o {
        Some(s) => Some(s.clone()),
        None => None,
    }
}

impl AudioFileInfo {
    /// Builds the entry of the file at `path` from its tags, in the order the file gives them.
    pub fn new(path: &str, tags: &Vec<TagEntry>) -> (r: Self)
        ensures
            r.file_path@ == path@,
            opt_view(r.title) == spec_tag_field(tags_view(tags@), TagKey::TrackTitle),
            opt_view(r.album_name) == spec_tag_field(tags_view(tags@), TagKey::Album),
            opt_view(r.artist_name) == spec_tag_field(tags_view(tags@), TagKey::Artist),
            exists|file_name: Seq<char>|
                {
                    &&& (file_name.len() == 0 || is_substring(file_name, path@))
                    &&& r.disp_name@ == spec_disp_name(
                        opt_view(r.title),
                        opt_view(r.artist_name),
                        file_name,
                    )
                },
            has_portable_name(path@) ==> r.disp_name@ == spec_disp_name(
                opt_view(r.title),
                opt_view(r.artist_name),
                portable_name(path@),
            ),
    {
        let file_name = path_file_name(path);
        let ghost n = match &file_name {
            Some(n) => n@,
            None => Seq::<char>::empty(),
        };
        let r = Self::with_file_name(path, tags, file_name);
        assert(n.len() == 0 || is_substring(n, path@));
        r
    }

    /// Builds the entry of the file at `path` from its tags, in the order the file gives them,
    /// where `file_name` is the final component of the path as the platform's path rules give it.
    pub fn with_file_name(path: &str, tags: &Vec<TagEntry>, file_name: Option<String>) -> (r: Self)
        ensures
            r.file_path@ == path@,
            opt_view(r.title) == spec_tag_field(tags_view(tags@), TagKey::TrackTitle),
            opt_view(r.album_name) == spec_tag_field(tags_view(tags@), TagKey::Album),
            opt_view(r.artist_name) == spec_tag_field(tags_view(tags@), TagKey::Artist),
            r.disp_name@ == spec_disp_name(
                opt_view(r.title),
                opt_view(r.artist_name),
                match file_name {
                    Some(n) => n@,
                    None => Seq::<char>::empty(),
                },
            ),
    {
        let mut title: Option<String> = None;
        let mut album_name: Option<String> = None;
        let mut artist_name: Option<String> = None;
        let mut i: usize = 0;
        let ghost tv = tags_view(tags@);
        while i < tags.len()
            invariant
                i <= tags@.len(),
                tv == tags_view(tags@),
                opt_view(title) == spec_tag_field(tv.take(i as int), TagKey::TrackTitle),
                opt_view(album_name) == spec_tag_field(tv.take(i as int), TagKey::Album),
                opt_view(artist_name) == spec_tag_field(tv.take(i as int), TagKey::Artist),
            decreases tags@.len() - i,
        {
            let tag = &tags[i];
            assert(tv.take(i + 1).drop_last() =~= tv.take(i as int));
            assert(tv.take(i + 1).last() == tv[i as int]);
            match tag.std_key {
                Some(TagKey::Album) => {
                    album_name = clone_opt(&tag.value);
                },
                Some(TagKey::Artist) => {
                    artist_name = clone_opt(&tag.value);
                },
                Some(TagKey::TrackTitle) => {
                    title = clone_opt(&tag.value);
                },
                _ => {},
            }
            i = i + 1;
        }
        assert(tv.take(tags@.len() as int) =~= tv);
        let file_name = match file_name {
            Some(n) => n,
            None => String::new(),
        };
        let disp_name = match (&title, &artist_name) {
            (Some(t), Some(a)) => {
                let mut s = t.clone();
                proof {
                    reveal_strlit(" [");
                    reveal_strlit("]");
                }
                s.append(" [");
                s.append(a.as_str());
                s.append("]");
                s
            },
            (Some(t), None) => t.clone(),
            (None, _) => file_name.clone(),
        };
        let r = AudioFileInfo {
            file_path: path.to_owned(),
            title,
            album_name,
            artist_name,
            disp_name,
        };
        assert(r.disp_name@ == spec_disp_name(
            opt_view(r.title),
            opt_view(r.artist_name),
            file_name@,
        ));
        r
    }

    /// The name shown in the play list.
    pub fn get_disp_name(&self) -> (r: &String)
        ensures
            r@ == self.disp_name@,
    {
        &self.disp_name
    }
}

/// A later tag with the same key wins over an earlier one.
pub proof fn lemma_later_tag_wins(
    tags: Seq<(Option<TagKey>, Option<Seq<char>>)>,
    key: TagKey,
    value: Option<Seq<char>>,
)
    ensures
        spec_tag_field(tags.push((Some(key), value)), key) == value,
{
    assert(tags.push((Some(key), value)).last() == (Some(key), value));
}

/// Tags with other keys leave a field as it was.
pub proof fn lemma_other_tags_ignored(
    tags: Seq<(Option<TagKey>, Option<Seq<char>>)>,
    key: TagKey,
    other: Option<TagKey>,
    value: Option<Seq<char>>,
)
    requires
        other != Some(key),
    ensures
        spec_tag_field(tags.push((other, value)), key) == spec_tag_field(tags, key),
{
    assert(tags.push((other, value)).drop_last() =~= tags);
}

} // verus!
