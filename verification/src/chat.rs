use vstd::prelude::*;
use vstd::string::StringExecFns;
use vstd::string::StrSliceExecFns;

verus! {

/// Whether `c` has the Unicode `White_Space` property, which is what
/// `char::is_whitespace` reports: the controls U+0009 to U+000D and U+0085,
/// the space U+0020, the no-break spaces U+00A0 and U+202F, U+1680, the
/// spaces U+2000 to U+200A, the line and paragraph separators U+2028 and
/// U+2029, U+205F and the ideographic space U+3000.
pub open spec fn is_white_space(c: char) -> bool {
    let n = c as u32;
    ||| 0x09 <= n <= 0x0d
    ||| n == 0x20
    ||| n == 0x85
    ||| n == 0xa0
    ||| n == 0x1680
    ||| 0x2000 <= n <= 0x200a
    ||| n == 0x2028
    ||| n == 0x2029
    ||| n == 0x202f
    ||| n == 0x205f
    ||| n == 0x3000
}

/// `s` without its leading white space.
pub open spec fn trim_start(s: Seq<char>) -> Seq<char>
    decreases s.len(),
{
    if s.len() > 0 && is_white_space(s[0]) {
        trim_start(s.drop_first())
    } else {
        s
    }
}

/// `s` without its trailing white space.
pub open spec fn trim_end(s: Seq<char>) -> Seq<char>
    decreases s.len(),
{
    if s.len() > 0 && is_white_space(s.last()) {
        trim_end(s.drop_last())
    } else {
        s
    }
}

/// `s` without leading and trailing white space.
pub open spec fn trimmed(s: Seq<char>) -> Seq<char> {
    trim_end(trim_start(s))
}

/// Leading white space stripped, what is left is empty or starts with a
/// character that is no white space.
proof fn lemma_trim_start_front(s: Seq<char>)
    ensures
        trim_start(s).len() > 0 ==> !is_white_space(trim_start(s)[0]),
    decreases s.len(),
{
    if s.len() > 0 && is_white_space(s[0]) {
        lemma_trim_start_front(s.drop_first());
    }
}

/// Stripping trailing white space keeps a prefix, which is empty or ends
/// with a character that is no white space.
proof fn lemma_trim_end_prefix(s: Seq<char>)
    ensures
        trim_end(s).len() <= s.len(),
        trim_end(s) == s.subrange(0, trim_end(s).len() as int),
        trim_end(s).len() > 0 ==> !is_white_space(trim_end(s).last()),
    decreases s.len(),
{
    if s.len() > 0 && is_white_space(s.last()) {
        lemma_trim_end_prefix(s.drop_last());
        assert(s.drop_last().subrange(0, trim_end(s).len() as int) =~= s.subrange(
            0,
            trim_end(s).len() as int,
        ));
    } else {
        assert(s.subrange(0, s.len() as int) =~= s);
    }
}

/// Trimmed text neither starts nor ends with white space.
pub proof fn lemma_trimmed_ends(s: Seq<char>)
    ensures
        trimmed(s).len() > 0 ==> !is_white_space(trimmed(s)[0]) && !is_white_space(
            trimmed(s).last(),
        ),
{
    lemma_trim_start_front(s);
    lemma_trim_end_prefix(trim_start(s));
    if trimmed(s).len() > 0 {
        assert(trimmed(s)[0] == trim_start(s)[0]);
    }
}

/// Calls `str::trim`, which strips the characters for which
/// `char::is_whitespace` holds from both ends of `s`.
#[verifier::external_body]
fn trim(s: &str) -> (r: &str)
    ensures
        r@ == trimmed(s@),
{
    s.trim()
}

/// Whether `name` is one of the nicknames in `names`.
pub open spec fn listed(names: Seq<String>, name: Seq<char>) -> bool {
    exists|k: int| 0 <= k < names.len() && #[trigger] names[k]@ == name
}

/// The nicknames of the users in the chat, each once.
///
/// The names live in a vector without repeats rather than in a
/// `HashSet<String>`: vstd specifies what `HashSet` does only for elements
/// that obey its key model (`obeys_key_model`), which it establishes for
/// integers, `bool` and boxes of them but not for `String`, and nothing short
/// of an assumption could establish it here.
pub struct Registry {
    names: Vec<String>,
}

impl View for Registry {
    type V = Set<Seq<char>>;

    closed spec fn view(&self) -> Set<Seq<char>> {
        Set::new(|x: Seq<char>| listed(self.names@, x))
    }
}

impl Registry {
    /// No nickname is listed twice.
    pub closed spec fn wf(&self) -> bool {
        forall|i: int, j: int|
            0 <= i < j < self.names@.len() ==> #[trigger] self.names@[i]@ != #[trigger] self.names@[j]@
    }

    /// An empty chat.
    pub fn new() -> (r: Registry)
        ensures
            r.wf(),
            r@ == Set::<Seq<char>>::empty(),
    {
        let r = Registry { names: Vec::new() };
        assert(r@ =~= Set::<Seq<char>>::empty());
        r
    }

    fn position(&self, name: &String) -> (r: Option<usize>)
        ensures
            match r {
                Some(i) => i < self.names@.len() && self.names@[i as int]@ == name@ && self@.contains(
                    name@,
                ),
                None => !self@.contains(name@),
            },
    {
        let mut i: usize = 0;
        while i < self.names.len()
            invariant
                i <= self.names@.len(),
                forall|k: int| 0 <= k < i ==> #[trigger] self.names@[k]@ != name@,
            decreases self.names@.len() - i,
        {
            if self.names[i] == *name {
                assert(listed(self.names@, name@));
                return Some(i);
            }
            i = i + 1;
        }
        None
    }

    /// Whether a user with this nickname is in the chat.
    pub fn contains(&self, name: &String) -> (r: bool)
        ensures
            r == self@.contains(name@),
    {
        self.position(name).is_some()
    }

    /// Admits a nickname when no one in the chat has it; says whether it did.
    pub fn register(&mut self, name: String) -> (accepted: bool)
        requires
            old(self).wf(),
        ensures
            final(self).wf(),
            accepted == !old(self)@.contains(name@),
            final(self)@ == old(self)@.insert(name@),
    {
        match self.position(&name) {
            Some(_) => {
                assert(self@ =~= self@.insert(name@));
                false
            },
            None => {
                let ghost before = self.names@;
                self.names.push(name);
                proof {
                    assert(self.names@ == before.push(name));
                    assert forall|x: Seq<char>|
                        listed(self.names@, x) <==> listed(before, x) || x == name@ by {
                        if listed(self.names@, x) && x != name@ {
                            let k = choose|k: int|
                                0 <= k < self.names@.len() && #[trigger] self.names@[k]@ == x;
                            assert(before[k]@ == x);
                        }
                        if listed(before, x) {
                            let k = choose|k: int| 0 <= k < before.len() && #[trigger] before[k]@ == x;
                            assert(self.names@[k]@ == x);
                        }
                        if x == name@ {
                            assert(self.names@[before.len() as int]@ == x);
                        }
                    }
                    assert(self@ =~= old(self)@.insert(name@));
                    assert forall|i: int, j: int|
                        0 <= i < j < self.names@.len() implies #[trigger] self.names@[i]@
                        != #[trigger] self.names@[j]@ by {
                        if j == before.len() {
                            assert(self.names@[i] == before[i]);
                            assert(!listed(before, name@));
                        } else {
                            assert(self.names@[i] == before[i]);
                            assert(self.names@[j] == before[j]);
                        }
                    }
                }
                true
            },
        }
    }

    /// Removes a nickname from the chat (nothing happens when it is absent).
    pub fn unregister(&mut self, name: &String)
        requires
            old(self).wf(),
        ensures
            final(self).wf(),
            final(self)@ == old(self)@.remove(name@),
    {
        match self.position(name) {
            Some(i) => {
                let ghost before = self.names@;
                self.names.remove(i);
                proof {
                    assert forall|k: int| 0 <= k < self.names@.len() implies #[trigger] self.names@[k]
                        == before[if k < i {
                        k
                    } else {
                        k + 1
                    }] by {}
                    assert forall|x: Seq<char>|
                        listed(self.names@, x) <==> listed(before, x) && x != name@ by {
                        if listed(self.names@, x) {
                            let k = choose|k: int|
                                0 <= k < self.names@.len() && #[trigger] self.names@[k]@ == x;
                            let j = if k < i {
                                k
                            } else {
                                k + 1
                            };
                            assert(before[j]@ == x);
                            assert(j != i);
                        }
                        if listed(before, x) && x != name@ {
                            let k = choose|k: int| 0 <= k < before.len() && #[trigger] before[k]@ == x;
                            assert(k != i);
                            let j = if k < i {
                                k
                            } else {
                                k - 1
                            };
                            assert(self.names@[j]@ == x);
                        }
                    }
                    assert(self@ =~= old(self)@.remove(name@));
                    assert forall|a: int, b: int|
                        0 <= a < b < self.names@.len() implies #[trigger] self.names@[a]@
                        != #[trigger] self.names@[b]@ by {
                        let a1 = if a < i {
                            a
                        } else {
                            a + 1
                        };
                        let b1 = if b < i {
                            b
                        } else {
                            b + 1
                        };
                        assert(before[a1]@ != before[b1]@);
                    }
                }
            },
            None => {
                assert(self@ =~= self@.remove(name@));
            },
        }
    }
}

/// What the server answers a newcomer and tells the others.
pub enum Greeting {
    /// The nickname is in use: the newcomer gets `reply` and is dropped.
    Taken { reply: String },
    /// The nickname is now the newcomer's: it gets `reply`, and everyone
    /// gets `announcement`.
    Joined { nickname: String, reply: String, announcement: String },
}

/// The announcement of a user joining.
pub open spec fn join_text(nickname: Seq<char>) -> Seq<char> {
    "*** "@ + nickname + " joined the chat ***\n"@
}

/// The announcement of a user leaving.
pub open spec fn leave_text(nickname: Seq<char>) -> Seq<char> {
    "*** "@ + nickname + " left the chat ***\n"@
}

/// A chat line as the other users receive it.
pub open spec fn chat_text(nickname: Seq<char>, line: Seq<char>) -> Seq<char> {
    nickname + ": "@ + line
}

/// Handles a newcomer's first line: its trimmed text is the nickname asked
/// for, admitted when no one in the chat has it.
pub fn greet(registry: &mut Registry, first_line: &str) -> (r: Greeting)
    requires
        old(registry).wf(),
    ensures
        final(registry).wf(),
        final(registry)@ == old(registry)@.insert(trimmed(first_line@)),
        match r {
            Greeting::Taken { reply } => old(registry)@.contains(trimmed(first_line@)) && reply@
                == "TAKEN\n"@,
            Greeting::Joined { nickname, reply, announcement } => !old(registry)@.contains(
                trimmed(first_line@),
            ) && nickname@ == trimmed(first_line@) && reply@ == "OK\n"@ && announcement@
                == join_text(trimmed(first_line@)),
        },
{
    let nickname = trim(first_line).to_owned();
    if registry.register(nickname.clone()) {
        let announcement = join_announcement(&nickname);
        Greeting::Joined { nickname, reply: "OK\n".to_owned(), announcement }
    } else {
        Greeting::Taken { reply: "TAKEN\n".to_owned() }
    }
}

/// The announcement sent when `nickname` joins.
pub fn join_announcement(nickname: &String) -> (r: String)
    ensures
        r@ == join_text(nickname@),
{
    let mut r = "*** ".to_owned();
    r.append(nickname.as_str());
    r.append(" joined the chat ***\n");
    r
}

/// The announcement sent when `nickname` leaves.
pub fn leave_announcement(nickname: &String) -> (r: String)
    ensures
        r@ == leave_text(nickname@),
{
    let mut r = "*** ".to_owned();
    r.append(nickname.as_str());
    r.append(" left the chat ***\n");
    r
}

/// The message the others receive when `nickname` sends `line` (the line
/// keeps its line break).
pub fn chat_message(nickname: &String, line: &String) -> (r: String)
    ensures
        r@ == chat_text(nickname@, line@),
{
    let mut r = nickname.clone();
    r.append(": ");
    r.append(line.as_str());
    r
}

/// Whether the server's answer to the nickname, trimmed, is `TAKEN`.
pub fn is_taken_reply(reply: &str) -> (r: bool)
    ensures
        r == (trimmed(reply@) == "TAKEN"@),
{
    trim(reply).to_owned() == "TAKEN".to_owned()
}

/// Whether a line from the server is an announcement: it starts with `***`.
pub fn is_announcement(message: &str) -> (r: bool)
    ensures
        r == (message@.len() >= 3 && message@.subrange(0, 3) == seq!['*', '*', '*']),
{
    if message.unicode_len() < 3 {
        return false;
    }
    let a = message.get_char(0);
    let b = message.get_char(1);
    let c = message.get_char(2);
    let r = a == '*' && b == '*' && c == '*';
    assert(r == (message@.subrange(0, 3) =~= seq!['*', '*', '*']));
    r
}

/// Whether a line typed by the user is sent: it has something besides
/// white space.
pub fn should_send(input: &str) -> (r: bool)
    ensures
        r == (trimmed(input@).len() > 0),
{
    !trim(input).is_empty()
}

/// A nickname in the chat cannot be registered again: the second request
/// is refused and the registry stays as it was.
pub proof fn lemma_nickname_exclusive(users: Set<Seq<char>>, name: Seq<char>)
    ensures
        users.insert(name).contains(name),
        users.insert(name).insert(name) == users.insert(name),
{
    assert(users.insert(name).insert(name) =~= users.insert(name));
}

/// A user who leaves frees the nickname: once removed, it can be registered
/// again.
pub proof fn lemma_leave_frees_nickname(users: Set<Seq<char>>, name: Seq<char>)
    ensures
        !users.remove(name).contains(name),
{
}

/// Whether a line broadcast from connection `sender` is written to
/// connection `receiver` (connections told apart by a number each): every
/// connection but the sender's own gets it.
pub fn should_relay(receiver: u64, sender: u64) -> (r: bool)
    ensures
        r == (receiver != sender),
{
    receiver != sender
}

} // verus!
