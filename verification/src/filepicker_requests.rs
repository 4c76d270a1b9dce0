//! Asks the host's file picker for a folder and matches its answers to the
//! questions asked: each question carries a fresh random id, and an answer
//! counts only if it names an id still waiting, which it then uses up.
use vstd::prelude::*;
use crate::context::{lookup, Context};
use crate::host::{opt_string_view, MessageToPlugin, MessageView};

verus! {

/// Whether `c` is a lower-case hexadecimal digit.
pub open spec fn is_lower_hex(c: char) -> bool {
    ('0' <= c <= '9') || ('a' <= c <= 'f')
}

/// Whether `s` is a version 4 UUID in hyphenated lower-case form, such as
/// `67e55044-10b1-426f-9247-bb680e5fe0c8`: 36 characters, hyphens at
/// positions 8, 13, 18 and 23, lower-case hexadecimal digits elsewhere, the
/// version digit `4` at position 14, and one of `8`, `9`, `a`, `b` at position 19.
pub open spec fn is_uuid_v4_text(s: Seq<char>) -> bool {
    &&& s.len() == 36
    &&& forall|i: int|
        0 <= i < 36 ==> if i == 8 || i == 13 || i == 18 || i == 23 {
            #[trigger] s[i] == '-'
        } else {
            is_lower_hex(s[i])
        }
    &&& s[14] == '4'
    &&& (s[19] == '8' || s[19] == '9' || s[19] == 'a' || s[19] == 'b')
}

/// A fresh random id, written out.
///
/// Calls `uuid::Uuid::new_v4` and writes the result with `to_string`, which
/// for a `Uuid` gives the hyphenated lower-case form. The contract states the
/// form that every version 4 id has; which id comes back rests on chance, so
/// nothing ties two calls together. (Where the system's random source fails,
/// `uuid` panics.)
#[verifier::external_body]
fn new_request_id() -> (id: String)
    ensures
        is_uuid_v4_text(id@),
{
    uuid::Uuid::new_v4().to_string()
}

/// A message that came to this plugin through a pipe: its name, its payload
/// and its arguments.
#[derive(Debug)]
pub struct PipeMessage {
    pub name: String,
    pub payload: Option<String>,
    pub args: Context,
}

/// The key under which a question's id travels.
pub open spec fn request_id_key() -> Seq<char> {
    "request_id"@
}

/// The message that asks the file picker for a folder, under the id `id`.
pub open spec fn filepicker_message(id: Seq<char>) -> MessageView {
    MessageView {
        message_name: "filepicker"@,
        plugin_url: Some("filepicker"@),
        plugin_config: seq![(request_id_key(), id)],
        message_args: seq![(request_id_key(), id)],
        new_plugin_pane_title: Some("Select a a folder in which to create the new plugin..."@),
    }
}

/// What an answer does to the ids that wait, and the folder it yields: with
/// a payload and a waiting id, the payload is the folder and that id (its
/// first occurrence) is used up; otherwise nothing changes and no folder comes.
pub open spec fn answer_spec(
    ids: Seq<Seq<char>>,
    payload: Option<Seq<char>>,
    args: Seq<(Seq<char>, Seq<char>)>,
) -> (Seq<Seq<char>>, Option<Seq<char>>) {
    match (payload, lookup(args, request_id_key())) {
        (Some(p), Some(r)) => match ids.index_of_first(r) {
            Some(i) => (ids.remove(i), Some(p)),
            None => (ids, None),
        },
        _ => (ids, None),
    }
}

/// The ids of the questions to the file picker that wait for an answer.
#[derive(Debug)]
pub struct FilePickerRequests {
    request_ids: Vec<String>,
}

impl View for FilePickerRequests {
    type V = Seq<Seq<char>>;

    closed spec fn view(&self) -> Seq<Seq<char>> {
        self.request_ids@.map_values(|s: String| s@)
    }
}

/// Each answer that yields a folder yields its payload and uses up exactly
/// one waiting question with the answer's id; any other answer changes
/// nothing. Asking adds one question with its id. So answers under an id
/// yield a folder at most as often as questions under that id were asked.
pub proof fn law_answer_uses_up_one_question(
    ids: Seq<Seq<char>>,
    id: Seq<char>,
    payload: Option<Seq<char>>,
    args: Seq<(Seq<char>, Seq<char>)>,
)
    ensures
        ids.push(id).to_multiset() == ids.to_multiset().insert(id),
        match answer_spec(ids, payload, args) {
            (rest, Some(folder)) => {
                &&& payload == Some(folder)
                &&& lookup(args, request_id_key()) matches Some(r) && {
                    &&& ids.to_multiset().count(r) > 0
                    &&& rest.to_multiset() == ids.to_multiset().remove(r)
                }
            },
            (rest, None) => rest == ids,
        },
{
    broadcast use vstd::seq_lib::group_to_multiset_ensures;
    assert(ids.push(id).to_multiset() =~= ids.to_multiset().insert(id));
    match (payload, lookup(args, request_id_key())) {
        (Some(p), Some(r)) => {
            ids.index_of_first_ensures(r);
            match ids.index_of_first(r) {
                Some(i) => {
                    assert(ids.contains(r));
                    assert(ids.remove(i).to_multiset() =~= ids.to_multiset().remove(ids[i]));
                },
                None => {},
            }
        },
        _ => {},
    }
}

/// An answer with a payload whose id waits, at whatever position among the
/// waiting ids, yields that payload and uses up exactly one question with
/// that id; the other waiting questions stay, in their order.
pub proof fn law_waiting_id_is_accepted(
    ids: Seq<Seq<char>>,
    r: Seq<char>,
    folder: Seq<char>,
    args: Seq<(Seq<char>, Seq<char>)>,
)
    requires
        ids.contains(r),
        lookup(args, request_id_key()) == Some(r),
    ensures
        ({
            let (rest, answer) = answer_spec(ids, Some(folder), args);
            &&& answer == Some(folder)
            &&& rest.len() == ids.len() - 1
            &&& rest.to_multiset() == ids.to_multiset().remove(r)
            &&& exists|i: int| 0 <= i < ids.len() && ids[i] == r && rest == ids.remove(i)
        }),
{
    broadcast use vstd::seq_lib::group_to_multiset_ensures;
    ids.index_of_first_ensures(r);
    let i = ids.index_of_first(r)->0;
    assert(ids.remove(i).to_multiset() =~= ids.to_multiset().remove(ids[i]));
    assert(ids[i] == r && answer_spec(ids, Some(folder), args).0 == ids.remove(i));
}

/// The question asked under `id` carries `id` in its configuration and its
/// arguments. An answer that names `id` and brings a folder yields that
/// folder and uses the question up, leaving the ids that waited before; a
/// second answer with the same id then yields nothing and changes nothing.
pub proof fn law_answer_uses_up_question(
    ids: Seq<Seq<char>>,
    id: Seq<char>,
    folder: Seq<char>,
    args: Seq<(Seq<char>, Seq<char>)>,
)
    requires
        !ids.contains(id),
        lookup(args, request_id_key()) == Some(id),
    ensures
        lookup(filepicker_message(id).plugin_config, request_id_key()) == Some(id),
        lookup(filepicker_message(id).message_args, request_id_key()) == Some(id),
        answer_spec(ids.push(id), Some(folder), args) == (ids, Some(folder)),
        answer_spec(ids, Some(folder), args) == (ids, None::<Seq<char>>),
{
    let asked = ids.push(id);
    asked.index_of_first_ensures(id);
    ids.index_of_first_ensures(id);
    assert(asked[ids.len() as int] == id);
    assert(asked.index_of_first(id) == Some(ids.len() as int));
    assert(asked.remove(ids.len() as int) =~= ids);
}

impl Default for FilePickerRequests {
    fn default() -> (r: FilePickerRequests)
        ensures
            r@ == Seq::<Seq<char>>::empty(),
    {
        FilePickerRequests::new()
    }
}

impl FilePickerRequests {
    /// No question waits.
    pub fn new() -> (r: FilePickerRequests)
        ensures
            r@ == Seq::<Seq<char>>::empty(),
    {
        let r = FilePickerRequests { request_ids: Vec::new() };
        assert(r@ =~= Seq::<Seq<char>>::empty());
        r
    }

    /// Asks the file picker for a folder: draws a fresh id, records it as
    /// waiting, and gives back the message to send, which carries the id.
    pub fn send_filepicker_request(&mut self) -> (message: MessageToPlugin)
        ensures
            final(self)@ == old(self)@.push(final(self)@.last()),
            is_uuid_v4_text(final(self)@.last()),
            message@ == filepicker_message(final(self)@.last()),
    {
        let request_id = new_request_id();
        let ghost before = self.request_ids@;
        self.request_ids.push(request_id.clone());
        assert(self@ =~= before.map_values(|s: String| s@).push(request_id@));
        let config = Context::single(String::from_str("request_id"), request_id.clone());
        let args = Context::single(String::from_str("request_id"), request_id);
        MessageToPlugin {
            message_name: String::from_str("filepicker"),
            plugin_url: Some(String::from_str("filepicker")),
            plugin_config: config,
            message_args: args,
            new_plugin_pane_title: Some(
                String::from_str("Select a a folder in which to create the new plugin..."),
            ),
        }
    }

    /// Takes an answer of the file picker: with a payload and the id of a
    /// waiting question, uses that id up and gives back the payload, the
    /// chosen folder; otherwise changes nothing and gives back nothing.
    pub fn handle_filepicker_response(&mut self, pipe_message: PipeMessage) -> (folder: Option<String>)
        ensures
            (final(self)@, opt_string_view(folder)) == answer_spec(
                old(self)@,
                opt_string_view(pipe_message.payload),
                pipe_message.args@,
            ),
    {
        let request_id = pipe_message.args.get("request_id");
        match (&pipe_message.payload, request_id) {
            (Some(payload), Some(request_id)) => {
                let n = self.request_ids.len();
                let mut i: usize = 0;
                while i < n
                    invariant
                        i <= n,
                        n == self.request_ids@.len(),
                        self@.len() == n,
                        self@ == old(self)@,
                        lookup(pipe_message.args@, request_id_key()) == Some(request_id@),
                        pipe_message.payload == Some(*payload),
                        forall|j: int| 0 <= j < i ==> #[trigger] self@[j] != request_id@,
                    decreases n - i,
                {
                    if self.request_ids[i] == request_id {
                        proof {
                            self@.index_of_first_ensures(request_id@);
                            assert(self@[i as int] == request_id@);
                            assert(self@.contains(request_id@));
                            assert(self@.index_of_first(request_id@) == Some(i as int));
                        }
                        let ghost before = self.request_ids@;
                        self.request_ids.remove(i);
                        assert(self@ =~= before.map_values(|s: String| s@).remove(i as int));
                        return Some(payload.clone());
                    }
                    i = i + 1;
                }
                proof {
                    self@.index_of_first_ensures(request_id@);
                    assert(self@.index_of_first(request_id@) is None);
                }
                None
            },
            _ => None,
        }
    }
}

} // verus!
