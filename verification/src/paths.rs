//! Where the files of a thread stand.

use vstd::prelude::*;

use crate::text::{chars_of, is_alphanumeric};

verus! {

/// The files of a thread: its session and its state.
#[derive(Clone, Debug)]
pub struct ThreadPaths {
    pub session: String,
    pub state: String,
}

/// What [`ThreadPaths`] holds.
pub struct ThreadPathsView {
    pub session: Seq<char>,
    pub state: Seq<char>,
}

impl View for ThreadPaths {
    type V = ThreadPathsView;

    open spec fn view(&self) -> ThreadPathsView {
        ThreadPathsView { session: self.session@, state: self.state@ }
    }
}

/// A character that can stand in the name of a file: an ASCII letter or digit as it is,
/// anything else as an underscore.
pub open spec fn safe_char(c: char) -> char {
    if is_alphanumeric(c) {
        c
    } else {
        '_'
    }
}

/// A text as a part of the name of a file.
pub open spec fn safe_component(s: Seq<char>) -> Seq<char> {
    s.map_values(|c: char| safe_char(c))
}

/// The path that `name` has, seen from `base`. An absolute name stands for itself.
pub open spec fn path_joined(base: Seq<char>, name: Seq<char>) -> Seq<char> {
    if name.len() > 0 && name[0] == '/' {
        name
    } else if base.len() == 0 || base.last() == '/' {
        base + name
    } else {
        base + "/"@ + name
    }
}

/// The name under which the files of a thread go.
pub open spec fn thread_key(channel: Seq<char>, thread_ts: Seq<char>) -> Seq<char> {
    safe_component(channel) + "_"@ + safe_component(thread_ts)
}

/// The files of a thread, below a directory.
pub open spec fn thread_files(
    base: Seq<char>,
    channel: Seq<char>,
    thread_ts: Seq<char>,
) -> ThreadPathsView {
    let key = thread_key(channel, thread_ts);
    ThreadPathsView {
        session: path_joined(path_joined(base, "sessions"@), key + ".jsonl"@),
        state: path_joined(path_joined(base, "threads"@), key + ".json"@),
    }
}

/// The path that `name` has, seen from `base`. An absolute name stands for itself.
pub fn join_path(base: &str, name: &str) -> (r: String)
    ensures
        r@ == path_joined(base@, name@),
{
    let base_chars = chars_of(base);
    let name_chars = chars_of(name);
    if name_chars.len() > 0 && name_chars[0] == '/' {
        name.to_string()
    } else if base_chars.len() == 0 || base_chars[base_chars.len() - 1] == '/' {
        base.to_string().concat(name)
    } else {
        base.to_string().concat("/").concat(name)
    }
}

/// A text as a part of the name of a file: all but ASCII letters and digits is replaced
/// by underscores.
pub fn sanitize_path_component(input: &str) -> (r: String)
    ensures
        r@ == safe_component(input@),
{
    let chars = chars_of(input);
    let ghost all = safe_component(chars@);
    let mut out = String::new();
    for i in 0..chars.len()
        invariant
            all == safe_component(chars@),
            out@ == all.take(i as int),
    {
        let c = chars[i];
        if ('a' <= c && c <= 'z') || ('A' <= c && c <= 'Z') || ('0' <= c && c <= '9') {
            out.push(c);
        } else {
            out.push('_');
        }
        assert(all.take(i as int).push(safe_char(c)) == all.take(i + 1));
    }
    assert(all.take(all.len() as int) == all);
    out
}

/// The files of a thread, below a directory.
pub fn thread_paths(base: &str, channel: &str, thread_ts: &str) -> (r: ThreadPaths)
    ensures
        r@ == thread_files(base@, channel@, thread_ts@),
{
    let key = sanitize_path_component(channel).concat("_").concat(
        sanitize_path_component(thread_ts).as_str(),
    );
    ThreadPaths {
        session: join_path(
            join_path(base, "sessions").as_str(),
            key.clone().concat(".jsonl").as_str(),
        ),
        state: join_path(join_path(base, "threads").as_str(), key.concat(".json").as_str()),
    }
}

/// The part of a file name that a text becomes has the length of the text, holds ASCII
/// letters, digits and underscores only, and stays as it is when it is made safe again.
pub proof fn law_component_is_safe(s: Seq<char>)
    ensures
        safe_component(s).len() == s.len(),
        forall|i: int|
            0 <= i < s.len() ==> is_alphanumeric(#[trigger] safe_component(s)[i])
                || safe_component(s)[i] == '_',
        safe_component(safe_component(s)) == safe_component(s),
{
    assert(safe_component(safe_component(s)) =~= safe_component(s));
}

/// The name under which the files of a thread go holds ASCII letters, digits and
/// underscores only.
proof fn lemma_key_is_safe(channel: Seq<char>, thread_ts: Seq<char>)
    ensures
        thread_key(channel, thread_ts).len() == channel.len() + 1 + thread_ts.len(),
        thread_key(channel, thread_ts)[channel.len() as int] == '_',
        forall|i: int|
            0 <= i < thread_key(channel, thread_ts).len() ==> is_alphanumeric(
                #[trigger] thread_key(channel, thread_ts)[i],
            ) || thread_key(channel, thread_ts)[i] == '_',
{
    reveal_strlit("_");
    law_component_is_safe(channel);
    law_component_is_safe(thread_ts);
    assert forall|i: int| 0 <= i < thread_key(channel, thread_ts).len() implies is_alphanumeric(
        #[trigger] thread_key(channel, thread_ts)[i],
    ) || thread_key(channel, thread_ts)[i] == '_' by {
        if i < channel.len() {
            assert(thread_key(channel, thread_ts)[i] == safe_component(channel)[i]);
        } else if i > channel.len() {
            assert(thread_key(channel, thread_ts)[i] == safe_component(thread_ts)[i - channel.len()
                - 1]);
        }
    }
}

/// Whatever a channel and a thread are called, the files of the thread stand right in the
/// two directories that are set aside for them: the name of neither file leads elsewhere.
pub proof fn law_files_stay_in_their_directories(
    base: Seq<char>,
    channel: Seq<char>,
    thread_ts: Seq<char>,
)
    ensures
        ({
            let files = thread_files(base, channel, thread_ts);
            let key = thread_key(channel, thread_ts);
            &&& files.session == path_joined(base, "sessions"@) + "/"@ + key + ".jsonl"@
            &&& files.state == path_joined(base, "threads"@) + "/"@ + key + ".json"@
            &&& base.is_prefix_of(files.session)
            &&& base.is_prefix_of(files.state)
            &&& !key.contains('/')
            &&& !key.contains('.')
        }),
{
    let files = thread_files(base, channel, thread_ts);
    let key = thread_key(channel, thread_ts);
    reveal_strlit("sessions");
    reveal_strlit("threads");
    reveal_strlit("/");
    lemma_key_is_safe(channel, thread_ts);
    assert("sessions"@[0] == 's' && "sessions"@[7] == 's');
    assert("threads"@[0] == 't' && "threads"@[6] == 's');
    assert(path_joined(base, "sessions"@).last() == 's');
    assert(path_joined(base, "threads"@).last() == 's');
    assert(is_alphanumeric(key[0]) || key[0] == '_');
    assert((key + ".jsonl"@)[0] == key[0]);
    assert((key + ".json"@)[0] == key[0]);
    assert(files.session == path_joined(base, "sessions"@) + "/"@ + key + ".jsonl"@);
    assert(files.state == path_joined(base, "threads"@) + "/"@ + key + ".json"@);
    assert(files.session.subrange(0, base.len() as int) == base);
    assert(files.state.subrange(0, base.len() as int) == base);
}

/// The session of a thread never stands where the state of some thread stands.
pub proof fn law_sessions_are_not_states(
    base: Seq<char>,
    channel: Seq<char>,
    thread_ts: Seq<char>,
    other_channel: Seq<char>,
    other_thread_ts: Seq<char>,
)
    ensures
        thread_files(base, channel, thread_ts).session != thread_files(
            base,
            other_channel,
            other_thread_ts,
        ).state,
{
    reveal_strlit(".jsonl");
    reveal_strlit(".json");
    law_files_stay_in_their_directories(base, channel, thread_ts);
    law_files_stay_in_their_directories(base, other_channel, other_thread_ts);
    assert(".jsonl"@.last() == 'l');
    assert(".json"@.last() == 'n');
    assert(thread_files(base, channel, thread_ts).session.last() == 'l');
    assert(thread_files(base, other_channel, other_thread_ts).state.last() == 'n');
}

/// Whether a text has the form of a channel identifier: ASCII letters and digits.
pub open spec fn is_channel_id(s: Seq<char>) -> bool {
    forall|i: int| 0 <= i < s.len() ==> is_alphanumeric(#[trigger] s[i])
}

/// Whether a text has the form of a timestamp: ASCII letters, digits and dots.
pub open spec fn is_timestamp(s: Seq<char>) -> bool {
    forall|i: int| 0 <= i < s.len() ==> is_alphanumeric(#[trigger] s[i]) || s[i] == '.'
}

/// Two threads share a file only if they are the same thread, provided that their
/// channels and timestamps have the form that Slack gives them.
pub proof fn law_each_thread_has_its_own_files(
    base: Seq<char>,
    channel: Seq<char>,
    thread_ts: Seq<char>,
    other_channel: Seq<char>,
    other_thread_ts: Seq<char>,
)
    requires
        is_channel_id(channel),
        is_channel_id(other_channel),
        is_timestamp(thread_ts),
        is_timestamp(other_thread_ts),
        thread_files(base, channel, thread_ts).session == thread_files(
            base,
            other_channel,
            other_thread_ts,
        ).session || thread_files(base, channel, thread_ts).state == thread_files(
            base,
            other_channel,
            other_thread_ts,
        ).state,
    ensures
        channel == other_channel,
        thread_ts == other_thread_ts,
{
    let key = thread_key(channel, thread_ts);
    let other = thread_key(other_channel, other_thread_ts);
    law_files_stay_in_their_directories(base, channel, thread_ts);
    law_files_stay_in_their_directories(base, other_channel, other_thread_ts);
    lemma_same_middle(path_joined(base, "sessions"@) + "/"@, key, other, ".jsonl"@);
    lemma_same_middle(path_joined(base, "threads"@) + "/"@, key, other, ".json"@);
    assert(key == other);
    lemma_key_is_safe(channel, thread_ts);
    lemma_key_is_safe(other_channel, other_thread_ts);
    reveal_strlit("_");
    if channel.len() < other_channel.len() {
        assert(other[channel.len() as int] == safe_char(other_channel[channel.len() as int]));
        assert(is_alphanumeric(other_channel[channel.len() as int]));
    } else if channel.len() > other_channel.len() {
        assert(key[other_channel.len() as int] == safe_char(channel[other_channel.len() as int]));
        assert(is_alphanumeric(channel[other_channel.len() as int]));
    }
    assert forall|i: int| 0 <= i < channel.len() implies channel[i] == other_channel[i] by {
        assert(key[i] == safe_char(channel[i]));
        assert(other[i] == safe_char(other_channel[i]));
        assert(is_alphanumeric(channel[i]) && is_alphanumeric(other_channel[i]));
    }
    assert(channel =~= other_channel);
    assert forall|i: int| 0 <= i < thread_ts.len() implies thread_ts[i] == other_thread_ts[i] by {
        let at = channel.len() + 1 + i;
        assert(key[at] == safe_char(thread_ts[i]));
        assert(other[at] == safe_char(other_thread_ts[i]));
        assert(is_alphanumeric(thread_ts[i]) || thread_ts[i] == '.');
        assert(is_alphanumeric(other_thread_ts[i]) || other_thread_ts[i] == '.');
    }
    assert(thread_ts =~= other_thread_ts);
}

/// What stands between equal texts can be told apart.
proof fn lemma_same_middle(front: Seq<char>, a: Seq<char>, b: Seq<char>, back: Seq<char>)
    ensures
        front + a + back == front + b + back ==> a == b,
{
    if front + a + back == front + b + back {
        let x = front + a + back;
        let y = front + b + back;
        assert(x.len() == y.len());
        assert forall|i: int| 0 <= i < a.len() implies a[i] == b[i] by {
            assert(x[front.len() + i] == a[i]);
            assert(y[front.len() + i] == b[i]);
        }
        assert(a =~= b);
    }
}

/// A text becomes a part of a file name character by character: an ASCII letter or digit
/// stays, and any other character becomes an underscore.
pub proof fn law_component_by_characters(s: Seq<char>)
    ensures
        safe_component(s).len() == s.len(),
        forall|i: int|
            0 <= i < s.len() ==> {
                let n = s[i] as int;
                if 48 <= n <= 57 || 65 <= n <= 90 || 97 <= n <= 122 {
                    #[trigger] safe_component(s)[i] == s[i]
                } else {
                    safe_component(s)[i] == '_'
                }
            },
{
}

/// A path that begins with a slash stands for itself, wherever it is seen from. Any other
/// is put behind the one that it is seen from, with one slash between the two: that which
/// is there already, or, unless there is nothing in front, a new one.
pub proof fn law_paths_are_joined_by_one_slash(base: Seq<char>, name: Seq<char>)
    ensures
        name.len() > 0 && name[0] == '/' ==> path_joined(base, name) == name,
        name.len() == 0 || name[0] != '/' ==> {
            &&& path_joined(Seq::empty(), name) == name
            &&& path_joined(base.push('/'), name) == base + seq!['/'] + name
            &&& base.len() > 0 && base[base.len() - 1] != '/' ==> path_joined(base, name) == base
                + seq!['/'] + name
        },
{
    reveal_strlit("/");
    assert("/"@ =~= seq!['/']);
    assert(base.push('/') + name =~= base + seq!['/'] + name);
    assert(Seq::<char>::empty() + name =~= name);
}

/// The session of a thread is a file below `sessions`, its state one below `threads`. Both
/// are named after the channel and the time of the thread, with an underscore between.
pub proof fn law_files_are_named_after_the_thread(
    base: Seq<char>,
    channel: Seq<char>,
    thread_ts: Seq<char>,
)
    ensures
        ({
            let files = thread_files(base, channel, thread_ts);
            let key = safe_component(channel) + seq!['_'] + safe_component(thread_ts);
            &&& files.session == path_joined(base, "sessions/"@ + key + ".jsonl"@)
            &&& files.state == path_joined(base, "threads/"@ + key + ".json"@)
        }),
{
    let files = thread_files(base, channel, thread_ts);
    let key = thread_key(channel, thread_ts);
    law_files_stay_in_their_directories(base, channel, thread_ts);
    reveal_strlit("_");
    reveal_strlit("/");
    reveal_strlit("sessions");
    reveal_strlit("threads");
    reveal_strlit("sessions/");
    reveal_strlit("threads/");
    assert("_"@ =~= seq!['_']);
    assert("sessions/"@ =~= "sessions"@ + "/"@);
    assert("threads/"@ =~= "threads"@ + "/"@);
    assert("sessions/"@[0] == 's' && "threads/"@[0] == 't');
    assert("sessions"@[0] == 's' && "threads"@[0] == 't');
    assert(("sessions/"@ + key + ".jsonl"@)[0] == 's');
    assert(("threads/"@ + key + ".json"@)[0] == 't');
    assert(files.session =~= path_joined(base, "sessions/"@ + key + ".jsonl"@));
    assert(files.state =~= path_joined(base, "threads/"@ + key + ".json"@));
}

/// Paths are taken for their characters.
pub proof fn law_paths_are_their_characters(paths: ThreadPaths)
    ensures
        paths@.session == paths.session@,
        paths@.state == paths.state@,
{
}

} // verus!
