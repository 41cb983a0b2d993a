//! JSON text: string escaping and object members, as the trace files use them.
use crate::text::{decimal, hex, hex_char, joined, lemma_joined_push, push_char, push_decimal};
use crate::text::{chars_of, hex_text, push_signed_decimal, signed_decimal, texts, zero_padded};
use vstd::prelude::*;
use vstd::string::*;

verus! {

/// The control characters: the Unicode general category `Cc`.
pub open spec fn is_control(c: char) -> bool {
    c as u32 <= 0x1f || 0x7f <= c as u32 <= 0x9f
}

/// How one character is written inside a JSON string.
pub open spec fn escaped_char(c: char) -> Seq<char> {
    if c == '\\' {
        seq!['\\', '\\']
    } else if c == '"' {
        seq!['\\', '"']
    } else if c == '\n' {
        seq!['\\', 'n']
    } else if c == '\r' {
        seq!['\\', 'r']
    } else if c == '\t' {
        seq!['\\', 't']
    } else if is_control(c) {
        seq!['\\', 'u'] + zero_padded(hex(c as nat), 4)
    } else {
        seq![c]
    }
}

/// How a text is written inside a JSON string.
pub open spec fn escaped(text: Seq<char>) -> Seq<char>
    decreases text.len(),
{
    if text.len() == 0 {
        Seq::empty()
    } else {
        escaped(text.drop_last()) + escaped_char(text.last())
    }
}

/// The JSON string of a text, with its quotes.
pub open spec fn quoted(text: Seq<char>) -> Seq<char> {
    seq!['"'] + escaped(text) + seq!['"']
}

fn push_escaped_char(text: &mut String, c: char)
    ensures
        final(text)@ == old(text)@ + escaped_char(c),
{
    if c == '\\' {
        push_char(text, '\\');
        push_char(text, '\\');
    } else if c == '"' {
        push_char(text, '\\');
        push_char(text, '"');
    } else if c == '\n' {
        push_char(text, '\\');
        push_char(text, 'n');
    } else if c == '\r' {
        push_char(text, '\\');
        push_char(text, 'r');
    } else if c == '\t' {
        push_char(text, '\\');
        push_char(text, 't');
    } else if c as u32 <= 0x1f || (0x7f <= c as u32 && c as u32 <= 0x9f) {
        push_char(text, '\\');
        push_char(text, 'u');
        let digits = hex_text(c as u64, 4);
        text.append(digits.as_str());
    } else {
        push_char(text, c);
    }
    assert(text@ =~= old(text)@ + escaped_char(c));
}

/// `value` as it is written inside a JSON string.
pub fn escape_json(value: &str) -> (text: String)
    ensures
        text@ == escaped(value@),
{
    let chars = chars_of(value);
    let mut text = String::new();
    let mut i: usize = 0;
    while i < chars.len()
        invariant
            i <= chars.len(),
            chars@ == value@,
            text@ == escaped(value@.take(i as int)),
        decreases chars.len() - i,
    {
        push_escaped_char(&mut text, chars[i]);
        assert(value@.take(i + 1).drop_last() =~= value@.take(i as int));
        i = i + 1;
    }
    assert(value@.take(value@.len() as int) =~= value@);
    text
}

/// The JSON string of `value`.
pub fn json_string(value: &str) -> (text: String)
    ensures
        text@ == quoted(value@),
{
    let mut text = String::new();
    push_char(&mut text, '"');
    let inner = escape_json(value);
    text.append(inner.as_str());
    push_char(&mut text, '"');
    assert(text@ =~= quoted(value@));
    text
}

/// The JSON form of an optional text: a string, or `null`.
pub open spec fn optional_quoted(value: Option<Seq<char>>) -> Seq<char> {
    match value {
        Some(text) => quoted(text),
        None => "null"@,
    }
}

/// The view of an optional string.
pub open spec fn optional_text(value: Option<String>) -> Option<Seq<char>> {
    match value {
        Some(text) => Some(text@),
        None => None,
    }
}

/// The JSON form of an optional text: a string, or `null`.
pub fn json_option_string(value: &Option<String>) -> (text: String)
    ensures
        text@ == optional_quoted(optional_text(*value)),
{
    match value {
        Some(inner) => json_string(inner.as_str()),
        None => "null".to_owned(),
    }
}

/// The JSON array of texts that are JSON values already.
pub open spec fn array_of(items: Seq<Seq<char>>) -> Seq<char> {
    seq!['['] + joined(items, seq![',']) + seq![']']
}

/// An array in writing.
pub struct JsonArray {
    text: String,
    count: usize,
    items: Ghost<Seq<Seq<char>>>,
}

impl JsonArray {
    /// The items written so far.
    pub closed spec fn items(&self) -> Seq<Seq<char>> {
        self.items@
    }

    /// The text holds the items written so far.
    pub closed spec fn wf(&self) -> bool {
        &&& self.text@ == seq!['['] + joined(self.items@, seq![','])
        &&& (self.count > 0) == (self.items@.len() > 0)
    }

    pub fn new() -> (array: JsonArray)
        ensures
            array.wf(),
            array.items() == Seq::<Seq<char>>::empty(),
    {
        let mut text = String::new();
        push_char(&mut text, '[');
        assert(text@ =~= seq!['['] + joined(Seq::<Seq<char>>::empty(), seq![',']));
        JsonArray { text, count: 0, items: Ghost(Seq::empty()) }
    }

    /// Adds one JSON value.
    pub fn item(&mut self, value: &str)
        requires
            old(self).wf(),
        ensures
            final(self).wf(),
            final(self).items() == old(self).items().push(value@),
    {
        if self.count > 0 {
            push_char(&mut self.text, ',');
        } else {
            self.count = 1;
        }
        self.text.append(value);
        proof {
            lemma_joined_push(old(self).items@, value@, seq![',']);
        }
        self.items = Ghost(self.items@.push(value@));
        assert(self.text@ =~= seq!['['] + joined(self.items@, seq![',']));
    }

    /// Closes the array.
    pub fn finish(self) -> (text: String)
        requires
            self.wf(),
        ensures
            text@ == array_of(self.items()),
    {
        let mut text = self.text;
        push_char(&mut text, ']');
        assert(text@ =~= array_of(self.items()));
        text
    }
}

/// The JSON array of the strings in `values`.
pub fn json_string_array(values: &[String]) -> (text: String)
    ensures
        text@ == array_of(texts(values@).map_values(|value: Seq<char>| quoted(value))),
{
    let mut array = JsonArray::new();
    let mut i: usize = 0;
    let ghost all = texts(values@).map_values(|value: Seq<char>| quoted(value));
    while i < values.len()
        invariant
            i <= values.len(),
            array.wf(),
            all == texts(values@).map_values(|value: Seq<char>| quoted(value)),
            array.items() == all.take(i as int),
        decreases values.len() - i,
    {
        let item = json_string(values[i].as_str());
        array.item(item.as_str());
        i = i + 1;
        assert(array.items() =~= all.take(i as int));
    }
    assert(all.take(all.len() as int) =~= all);
    array.finish()
}

/// The JSON array of the numbers in `values`.
pub fn json_u8_array(values: &[u8]) -> (text: String)
    ensures
        text@ == array_of(values@.map_values(|value: u8| decimal(value as nat))),
{
    let mut array = JsonArray::new();
    let mut i: usize = 0;
    let ghost all = values@.map_values(|value: u8| decimal(value as nat));
    while i < values.len()
        invariant
            i <= values.len(),
            array.wf(),
            all == values@.map_values(|value: u8| decimal(value as nat)),
            array.items() == all.take(i as int),
        decreases values.len() - i,
    {
        let item = crate::text::decimal_text(values[i] as u128);
        array.item(item.as_str());
        i = i + 1;
        assert(array.items() =~= all.take(i as int));
    }
    assert(all.take(all.len() as int) =~= all);
    array.finish()
}

/// One member of an object: its key and the JSON text of its value.
pub type Member = (Seq<char>, Seq<char>);

/// No member.
pub open spec fn no_members() -> Seq<Member> {
    Seq::empty()
}

/// The text of one member.
pub open spec fn member_text(member: Member) -> Seq<char> {
    seq!['"'] + member.0 + seq!['"', ':'] + member.1
}

/// The JSON object with the given members, in order.
pub open spec fn object_of(members: Seq<Member>) -> Seq<char> {
    seq!['{'] + joined(members.map_values(|m: Member| member_text(m)), seq![',']) + seq!['}']
}

/// The JSON form of a truth value.
pub open spec fn truth(value: bool) -> Seq<char> {
    if value {
        "true"@
    } else {
        "false"@
    }
}

/// `members` with one more numeric member if there is a value.
pub open spec fn with_optional_number(
    members: Seq<Member>,
    key: Seq<char>,
    value: Option<nat>,
) -> Seq<Member> {
    match value {
        Some(n) => members.push((key, decimal(n))),
        None => members,
    }
}

/// `members` with one more string member if there is a value.
pub open spec fn with_optional_string(
    members: Seq<Member>,
    key: Seq<char>,
    value: Option<Seq<char>>,
) -> Seq<Member> {
    match value {
        Some(text) => members.push((key, quoted(text))),
        None => members,
    }
}

/// `members` with one more member if there is a value, which is JSON text.
pub open spec fn with_optional_raw(
    members: Seq<Member>,
    key: Seq<char>,
    value: Option<Seq<char>>,
) -> Seq<Member> {
    match value {
        Some(text) => members.push((key, text)),
        None => members,
    }
}

/// An object in writing.
pub struct JsonObject {
    text: String,
    count: usize,
    members: Ghost<Seq<Member>>,
}

impl JsonObject {
    /// The members written so far.
    pub closed spec fn members(&self) -> Seq<Member> {
        self.members@
    }

    /// The text holds the members written so far.
    pub closed spec fn wf(&self) -> bool {
        &&& self.text@ == seq!['{'] + joined(
            self.members@.map_values(|m: Member| member_text(m)),
            seq![','],
        )
        &&& (self.count > 0) == (self.members@.len() > 0)
    }

    pub fn new() -> (object: JsonObject)
        ensures
            object.wf(),
            object.members() == no_members(),
    {
        let mut text = String::new();
        push_char(&mut text, '{');
        let ghost none = Seq::<Member>::empty();
        assert(none.map_values(|m: Member| member_text(m)) =~= Seq::<Seq<char>>::empty());
        assert(text@ =~= seq!['{'] + joined(
            none.map_values(|m: Member| member_text(m)),
            seq![','],
        ));
        JsonObject { text, count: 0, members: Ghost(none) }
    }

    /// Adds a member whose value is JSON text already.
    pub fn raw(&mut self, key: &str, value: &str)
        requires
            old(self).wf(),
        ensures
            final(self).wf(),
            final(self).members() == old(self).members().push((key@, value@)),
    {
        if self.count > 0 {
            push_char(&mut self.text, ',');
        } else {
            self.count = 1;
        }
        push_char(&mut self.text, '"');
        self.text.append(key);
        push_char(&mut self.text, '"');
        push_char(&mut self.text, ':');
        self.text.append(value);
        proof {
            let before = old(self).members@.map_values(|m: Member| member_text(m));
            let member = (key@, value@);
            let after = old(self).members@.push(member);
            assert(after.map_values(|m: Member| member_text(m)) =~= before.push(
                member_text(member),
            ));
            lemma_joined_push(before, member_text(member), seq![',']);
        }
        self.members = Ghost(self.members@.push((key@, value@)));
        assert(self.text@ =~= seq!['{'] + joined(
            self.members@.map_values(|m: Member| member_text(m)),
            seq![','],
        ));
    }

    /// Adds a number.
    pub fn number(&mut self, key: &str, value: u128)
        requires
            old(self).wf(),
        ensures
            final(self).wf(),
            final(self).members() == old(self).members().push((key@, decimal(value as nat))),
    {
        let mut text = String::new();
        push_decimal(&mut text, value);
        assert(text@ =~= decimal(value as nat));
        self.raw(key, text.as_str());
    }

    /// Adds a signed number.
    pub fn signed(&mut self, key: &str, value: i64)
        requires
            old(self).wf(),
        ensures
            final(self).wf(),
            final(self).members() == old(self).members().push((key@, signed_decimal(value as int))),
    {
        let mut text = String::new();
        push_signed_decimal(&mut text, value);
        assert(text@ =~= signed_decimal(value as int));
        self.raw(key, text.as_str());
    }

    /// Adds a string.
    pub fn string(&mut self, key: &str, value: &str)
        requires
            old(self).wf(),
        ensures
            final(self).wf(),
            final(self).members() == old(self).members().push((key@, quoted(value@))),
    {
        let text = json_string(value);
        self.raw(key, text.as_str());
    }

    /// Adds a truth value.
    pub fn boolean(&mut self, key: &str, value: bool)
        requires
            old(self).wf(),
        ensures
            final(self).wf(),
            final(self).members() == old(self).members().push((key@, truth(value))),
    {
        if value {
            self.raw(key, "true");
        } else {
            self.raw(key, "false");
        }
    }

    /// Adds a number if there is one.
    pub fn optional_number(&mut self, key: &str, value: Option<u64>)
        requires
            old(self).wf(),
        ensures
            final(self).wf(),
            final(self).members() == with_optional_number(
                old(self).members(),
                key@,
                match value {
                    Some(n) => Some(n as nat),
                    None => None,
                },
            ),
    {
        match value {
            Some(n) => self.number(key, n as u128),
            None => {},
        }
    }

    /// Adds a string if there is one.
    pub fn optional_string(&mut self, key: &str, value: &Option<String>)
        requires
            old(self).wf(),
        ensures
            final(self).wf(),
            final(self).members() == with_optional_string(
                old(self).members(),
                key@,
                optional_text(*value),
            ),
    {
        match value {
            Some(text) => self.string(key, text.as_str()),
            None => {},
        }
    }

    /// Adds a member whose value is JSON text already, if there is one.
    pub fn optional_raw(&mut self, key: &str, value: &Option<String>)
        requires
            old(self).wf(),
        ensures
            final(self).wf(),
            final(self).members() == with_optional_raw(
                old(self).members(),
                key@,
                optional_text(*value),
            ),
    {
        match value {
            Some(text) => self.raw(key, text.as_str()),
            None => {},
        }
    }

    /// Closes the object.
    pub fn finish(self) -> (text: String)
        requires
            self.wf(),
        ensures
            text@ == object_of(self.members()),
    {
        let mut text = self.text;
        push_char(&mut text, '}');
        assert(text@ =~= object_of(self.members()));
        text
    }
}

proof fn lemma_hex_is_plain(n: nat)
    ensures
        forall|i: int|
            0 <= i < hex(n).len() ==> !is_control(#[trigger] hex(n)[i]) && hex(n)[i] != '"',
    decreases n,
{
    if n >= 16 {
        lemma_hex_is_plain(n / 16);
        assert forall|i: int| 0 <= i < hex(n).len() implies !is_control(#[trigger] hex(n)[i])
            && hex(n)[i] != '"' by {
            if i < hex(n / 16).len() {
                assert(hex(n)[i] == hex(n / 16)[i]);
            } else {
                assert(hex(n)[i] == hex_char(n % 16));
            }
        }
    } else {
        assert(hex(n) =~= seq![hex_char(n)]);
    }
}

proof fn lemma_escaped_char_is_plain(c: char)
    ensures
        forall|i: int|
            0 <= i < escaped_char(c).len() ==> {
                let e = #[trigger] escaped_char(c)[i];
                !is_control(e) && (e == '"' ==> i > 0 && escaped_char(c)[i - 1] == '\\')
            },
{
    if is_control(c) {
        lemma_hex_is_plain(c as nat);
        crate::text::lemma_zero_padded(hex(c as nat), 4);
    }
}

/// Escaped text holds no control character, and each quote in it stands behind
/// a backslash: it cannot end the JSON string it is put into.
pub proof fn escaped_text_stays_inside_its_string(text: Seq<char>)
    ensures
        forall|i: int|
            0 <= i < escaped(text).len() ==> {
                let e = #[trigger] escaped(text)[i];
                !is_control(e) && (e == '"' ==> i > 0 && escaped(text)[i - 1] == '\\')
            },
    decreases text.len(),
{
    if text.len() > 0 {
        escaped_text_stays_inside_its_string(text.drop_last());
        lemma_escaped_char_is_plain(text.last());
        let before = escaped(text.drop_last());
        let last = escaped_char(text.last());
        assert forall|i: int| 0 <= i < escaped(text).len() implies {
            let e = #[trigger] escaped(text)[i];
            !is_control(e) && (e == '"' ==> i > 0 && escaped(text)[i - 1] == '\\')
        } by {
            if i < before.len() {
                assert(escaped(text)[i] == before[i]);
                if i > 0 {
                    assert(escaped(text)[i - 1] == before[i - 1]);
                }
            } else {
                let k = i - before.len();
                assert(escaped(text)[i] == last[k]);
                if k > 0 {
                    assert(escaped(text)[i - 1] == last[k - 1]);
                }
            }
        }
    }
}

/// Texts are escaped character by character: quotes and backslashes behind a backslash, line
/// ends and tabs by their letters, and all but control characters as they are.
pub proof fn characters_are_escaped_one_by_one(text: Seq<char>, c: char)
    ensures
        escaped(text.push(c)) == escaped(text) + escaped_char(c),
        escaped(Seq::empty()) == Seq::<char>::empty(),
        c >= ' ' && c < '\u{7f}' && c != '"' && c != '\\' ==> escaped_char(c) == seq![c],
        c >= '\u{a0}' ==> escaped_char(c) == seq![c],
        c == '"' || c == '\\' ==> escaped_char(c) == seq!['\\', c],
        escaped_char('\n') == seq!['\\', 'n'],
        escaped_char('\r') == seq!['\\', 'r'],
        escaped_char('\t') == seq!['\\', 't'],
{
    assert(text.push(c).drop_last() =~= text);
}

/// Arrays and objects hold what was put into them, in order and with commas in between; each
/// member of an object is its quoted name, a colon and its value.
pub proof fn json_holds_its_parts(first: Member, second: Member, a: Seq<char>, b: Seq<char>)
    ensures
        array_of(Seq::empty()) == seq!['[', ']'],
        array_of(seq![a]) == seq!['['] + a + seq![']'],
        array_of(seq![a, b]) == seq!['['] + a + seq![','] + b + seq![']'],
        object_of(no_members()) == seq!['{', '}'],
        object_of(seq![first]) == seq!['{', '"'] + first.0 + seq!['"', ':'] + first.1 + seq!['}'],
        object_of(seq![first, second]) == seq!['{', '"'] + first.0 + seq!['"', ':'] + first.1
            + seq![',', '"'] + second.0 + seq!['"', ':'] + second.1 + seq!['}'],
{
    reveal_with_fuel(joined, 3);
    assert(seq![a].drop_last() =~= Seq::<Seq<char>>::empty());
    assert(seq![a, b].drop_last() =~= seq![a]);
    let texts0 = no_members().map_values(|m: Member| member_text(m));
    let texts1 = seq![first].map_values(|m: Member| member_text(m));
    let texts2 = seq![first, second].map_values(|m: Member| member_text(m));
    assert(texts0 =~= Seq::<Seq<char>>::empty());
    assert(texts1 =~= seq![member_text(first)]);
    assert(texts2 =~= seq![member_text(first), member_text(second)]);
    assert(seq![member_text(first)].drop_last() =~= Seq::<Seq<char>>::empty());
    assert(seq![member_text(first), member_text(second)].drop_last() =~= seq![
        member_text(first),
    ]);
    assert(array_of(Seq::empty()) =~= seq!['[', ']']);
    assert(array_of(seq![a]) =~= seq!['['] + a + seq![']']);
    assert(array_of(seq![a, b]) =~= seq!['['] + a + seq![','] + b + seq![']']);
    assert(object_of(no_members()) =~= seq!['{', '}']);
    assert(object_of(seq![first]) =~= seq!['{', '"'] + first.0 + seq!['"', ':'] + first.1 + seq![
        '}',
    ]);
    assert(object_of(seq![first, second]) =~= seq!['{', '"'] + first.0 + seq!['"', ':'] + first.1
        + seq![',', '"'] + second.0 + seq!['"', ':'] + second.1 + seq!['}']);
}

} // verus!
