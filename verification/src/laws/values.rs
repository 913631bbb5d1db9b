//! Promises about texts, paths and settings.
use vstd::prelude::*;

use crate::config::settings::{env_opt, Config, Environment};
use crate::exception::error::{may_show, BotError};
use crate::http::{authorize, authorize_json, outcome, push_header};
use crate::paths::{
    config_path, extension, file_name, is_name_of, is_plain, is_plugin_extension, is_plugin_file,
    is_portable, last_dot, last_segment, name_from_stem, names_no_file, plugin_name, stem,
    with_extension, without_endings, FilePath,
};
use crate::text::{
    after_sign, chars_of, decimal, decimal_text, digits_value, is_digit, join, joined,
    law_decimal_round_trip, law_split_join, law_split_pieces, parse_u64, same, split, starts_with,
    texts, u64_of_text,
};

verus! {

/// A number is written with one more digit behind those of its tenth.
pub proof fn law_digits_of_a_number(n: nat, d: nat)
    requires
        d < 10,
    ensures
        decimal(d).len() == 1,
        decimal(d)[0] as int == '0' as int + d,
        n > 0 ==> decimal(n * 10 + d) == decimal(n) + decimal(d),
{
    if n > 0 {
        assert((n * 10 + d) / 10 == n);
        assert((n * 10 + d) % 10 == d);
        assert(decimal(n * 10 + d) =~= decimal(n) + decimal(d));
    }
}

/// A number that is written out is read back as it was.
pub proof fn law_number_is_read_back(n: u64, text: String, again: &str, r: Option<u64>)
    requires
        call_ensures(decimal_text, (n,), text),
        again@ == text@,
        call_ensures(parse_u64, (again,), r),
    ensures
        text@ == decimal(n as nat),
        r == Some(n),
{
    law_decimal_round_trip(n);
}

/// A digit behind a number makes it ten times as large and adds itself, as long as
/// the number fits; anything else behind it makes it no number.
pub proof fn law_digit_behind_a_number(s: Seq<char>, v: u64, c: char)
    requires
        u64_of_text(s) == Some(v),
    ensures
        '0' <= c <= '9' && v * 10 + (c as int - '0' as int) <= u64::MAX ==> u64_of_text(s.push(c))
            == Some((v * 10 + (c as int - '0' as int)) as u64),
        '0' <= c <= '9' && v * 10 + (c as int - '0' as int) > u64::MAX ==> u64_of_text(s.push(c))
            is None,
        !('0' <= c <= '9') ==> u64_of_text(s.push(c)) is None,
{
    let d = after_sign(s);
    let e = after_sign(s.push(c));
    assert(e =~= d.push(c));
    assert(e.drop_last() =~= d);
    assert(e[e.len() - 1] == c);
    if '0' <= c <= '9' {
        assert forall|i: int| 0 <= i < e.len() implies is_digit(#[trigger] e[i]) by {
            if i < d.len() {
                assert(is_digit(d[i]));
            }
        }
        assert(digits_value(e) == digits_value(d) * 10 + (c as int - '0' as int));
    }
}

/// A single digit is a number; nothing, a sign alone and any other character are
/// not; a plus sign before a number changes nothing.
pub proof fn law_short_numbers(c: char, s: Seq<char>)
    ensures
        '0' <= c <= '9' ==> u64_of_text(seq![c]) == Some((c as int - '0' as int) as u64),
        !('0' <= c <= '9') ==> u64_of_text(seq![c]) is None,
        u64_of_text(Seq::empty()) is None,
        s.len() > 0 && s[0] != '+' ==> u64_of_text(seq!['+'] + s) == u64_of_text(s),
{
    reveal_with_fuel(digits_value, 2);
    assert(seq![c].drop_last() =~= Seq::<char>::empty());
    assert(after_sign(Seq::<char>::empty()) =~= Seq::<char>::empty());
    if c == '+' {
        assert(after_sign(seq![c]) =~= Seq::<char>::empty());
    } else {
        assert(after_sign(seq![c]) =~= seq![c]);
        assert(seq![c][0] == c);
    }
    if s.len() > 0 {
        assert(after_sign(seq!['+'] + s) =~= s);
    }
}

/// Splitting a text loses nothing and leaves no separator in a piece.
pub proof fn law_split_text(s: &str, sep: char, r: Vec<String>, i: int, j: int)
    requires
        call_ensures(split, (s, sep), r),
    ensures
        join(texts(r@), sep) == s@,
        r@.len() > 0,
        0 <= i < r@.len() && 0 <= j < r@[i]@.len() ==> r@[i]@[j] != sep,
{
    law_split_join(s@, sep);
    assert(texts(r@).len() == r@.len());
    if 0 <= i < r@.len() && 0 <= j < r@[i]@.len() {
        assert(texts(r@)[i] == r@[i]@);
        law_split_pieces(s@, sep, i, j);
    }
}

/// Joining puts the separator between neighbours and nowhere else.
pub proof fn law_join(parts: Seq<Seq<char>>, p: Seq<char>, sep: char)
    ensures
        join(seq![p], sep) == p,
        parts.len() > 0 ==> join(parts.push(p), sep) == join(parts, sep) + seq![sep] + p,
        parts.len() == 0 ==> join(parts, sep).len() == 0,
{
    assert(parts.push(p).drop_last() =~= parts);
    if parts.len() > 0 {
        assert(join(parts.push(p), sep) =~= join(parts, sep) + seq![sep] + p);
    }
}

/// The contents of a list of strings are those of its strings, in order.
pub proof fn law_texts(v: Seq<String>, i: int)
    ensures
        texts(v).len() == v.len(),
        0 <= i < v.len() ==> texts(v)[i] == v[i]@,
{
}

/// What the helpers for texts give.
pub proof fn law_text_helpers(
    a: &str,
    b: &str,
    chars: Vec<char>,
    equal: bool,
    starts: bool,
    both: String,
)
    requires
        call_ensures(chars_of, (a,), chars),
        call_ensures(same, (a, b), equal),
        call_ensures(starts_with, (a, b), starts),
        call_ensures(joined, (a, b), both),
    ensures
        chars@ == a@,
        equal <==> a@ == b@,
        starts <==> exists|rest: Seq<char>| a@ == #[trigger] (b@ + rest),
        both@ == a@ + b@,
{
    if starts {
        assert(a@ =~= b@ + a@.skip(b@.len() as int));
    }
    if exists|rest: Seq<char>| a@ == #[trigger] (b@ + rest) {
        let rest = choose|rest: Seq<char>| a@ == #[trigger] (b@ + rest);
        assert(a@.subrange(0, b@.len() as int) =~= b@);
    }
}

/// The headers that identify the bot hold its token, and nothing but the kind of
/// the body is added to them.
pub proof fn law_headers(
    token: &str,
    plain: Vec<(String, String)>,
    json: Vec<(String, String)>,
)
    requires
        call_ensures(authorize, (token,), plain),
        call_ensures(authorize_json, (token,), json),
    ensures
        plain@.len() == 1,
        plain@[0].0@ == "Authorization"@ && plain@[0].1@ == "Bot "@ + token@,
        json@.len() == 2,
        json@[0].0@ == "Authorization"@ && json@[0].1@ == "Bot "@ + token@,
        json@[1].0@ == "Content-Type"@ && json@[1].1@ == "application/json"@,
{
    let p = crate::http::header_texts(plain@);
    let j = crate::http::header_texts(json@);
    assert(p.len() == plain@.len() && j.len() == json@.len());
    assert(p[0] == (plain@[0].0@, plain@[0].1@));
    assert(j[0] == (json@[0].0@, json@[0].1@));
    assert(j[1] == (json@[1].0@, json@[1].1@));
}

/// A header is added behind those that are there.
pub proof fn law_header_is_added(
    headers: &mut Vec<(String, String)>,
    name: &str,
    value: String,
    i: int,
)
    requires
        call_ensures(push_header, (headers, name, value), ()),
    ensures
        final(headers)@.len() == old(headers)@.len() + 1,
        final(headers)@.last().0@ == name@ && final(headers)@.last().1@ == value@,
        0 <= i < old(headers)@.len() ==> final(headers)@[i].0@ == old(headers)@[i].0@
            && final(headers)@[i].1@ == old(headers)@[i].1@,
{
    let before = crate::http::header_texts(old(headers)@);
    let after = crate::http::header_texts(final(headers)@);
    assert(after.len() == final(headers)@.len() && before.len() == old(headers)@.len());
    assert(after[before.len() as int] == (
        final(headers)@[before.len() as int].0@,
        final(headers)@[before.len() as int].1@,
    ));
    if 0 <= i < old(headers)@.len() {
        assert(before[i] == (old(headers)@[i].0@, old(headers)@[i].1@));
        assert(after[i] == (final(headers)@[i].0@, final(headers)@[i].1@));
        assert(after[i] == before[i]);
    }
}

/// A call succeeded exactly if its status says so, and otherwise its name, the
/// status and the answer are told.
pub proof fn law_outcome(what: &str, status: u16, text: &str, r: Result<(), String>)
    requires
        call_ensures(outcome, (what, status, text), r),
    ensures
        200 <= status < 300 <==> r is Ok,
        r matches Err(e) ==> e@ == what@ + (" failed ("@ + (decimal(status as nat) + ("): "@
            + text@))),
{
    crate::laws::requests::law_failure_is_reported(what@, status, text@);
}

/// A variable counts where it is set and not empty, with all of its value.
pub proof fn law_set_variables(value: Option<String>, r: Option<String>)
    requires
        call_ensures(env_opt, (value,), r),
    ensures
        match value {
            Some(v) => if v@.len() > 0 {
                r matches Some(s) && s@ == v@
            } else {
                r is None
            },
            None => r is None,
        },
{
}

/// The value of a setting: that of its variable where it is set and not empty.
pub open spec fn setting(value: Option<String>, usual: Seq<char>, r: Seq<char>) -> bool {
    match value {
        Some(v) => if v@.len() > 0 {
            r == v@
        } else {
            r == usual
        },
        None => r == usual,
    }
}

/// Each setting is that of its own variable, and the usual one where the variable
/// is not set or empty; the intents are those between the commas.
pub proof fn law_settings(env: Environment, r: Config)
    requires
        env.discord_token is Some,
        call_ensures(Config::from_env, (env,), r),
    ensures
        r.discord_token@ == env.discord_token->0@,
        setting(env.plugin_dir, "plugins"@, r.plugin_dir@),
        setting(env.log_level, "ynsrvcs=info"@, r.log_level@),
        match env.gateway_intents {
            Some(v) => v@.len() > 0 ==> join(texts(r.gateway_intents@), ',') == v@ && (forall|
                i: int,
                j: int,
            |
                0 <= i < r.gateway_intents@.len() && 0 <= j < r.gateway_intents@[i]@.len()
                    ==> #[trigger] r.gateway_intents@[i]@[j] != ','),
            None => true,
        },
        (env.gateway_intents matches Some(v) ==> v@.len() == 0) ==> r.gateway_intents@.len() == 2
            && r.gateway_intents@[0]@ == "GUILD_MESSAGES"@ && r.gateway_intents@[1]@
            == "MESSAGE_CONTENT"@,
{
    let intents = texts(r.gateway_intents@);
    assert(intents.len() == r.gateway_intents@.len());
    match env.gateway_intents {
        Some(v) if v@.len() > 0 => {
            law_split_join(v@, ',');
            assert forall|i: int, j: int|
                0 <= i < r.gateway_intents@.len() && 0 <= j
                    < r.gateway_intents@[i]@.len() implies #[trigger] r.gateway_intents@[i]@[j]
                != ',' by {
                assert(intents[i] == r.gateway_intents@[i]@);
                law_split_pieces(v@, ',', i, j);
            }
        },
        _ => {
            assert(intents[0] == r.gateway_intents@[0]@);
            assert(intents[1] == r.gateway_intents@[1]@);
        },
    }
}

/// An error is shown with the part of the bot that it comes from, where it comes
/// from one, and all that was said of it.
pub proof fn law_errors_are_shown(
    msg: String,
    config: String,
    wasm: String,
    discord: String,
    other: String,
)
    requires
        call_ensures(BotError::fmt, (&BotError::Config(msg),), config),
        call_ensures(BotError::fmt, (&BotError::Wasm(msg),), wasm),
        call_ensures(BotError::fmt, (&BotError::Discord(msg),), discord),
        call_ensures(BotError::fmt, (&BotError::Other(msg),), other),
    ensures
        config@ == "Config error: "@ + msg@,
        wasm@ == "Wasm error: "@ + msg@,
        discord@ == "Discord error: "@ + msg@,
        other@ == msg@,
{
}

/// A path is what it was made of, with what was joined to it, in order.
pub proof fn law_joined_paths(
    base: String,
    made: FilePath,
    path: &FilePath,
    part: &str,
    longer: FilePath,
    copy: FilePath,
)
    requires
        call_ensures(FilePath::new, (base,), made),
        call_ensures(FilePath::join, (path, part), longer),
        call_ensures(FilePath::copy, (path,), copy),
    ensures
        made@ == seq![base@],
        longer@ == path@.push(part@),
        copy@ == path@,
{
}

proof fn lemma_last_segment(dir: Seq<char>, name: Seq<char>)
    requires
        !name.contains('/'),
    ensures
        last_segment(dir.push('/') + name) == name,
    decreases name.len(),
{
    let path = dir.push('/') + name;
    if name.len() == 0 {
        assert(path =~= dir.push('/'));
        assert(last_segment(path) =~= name);
    } else {
        assert forall|i: int| 0 <= i < name.drop_last().len() implies name.drop_last()[i]
            != '/' by {
            assert(name.contains(name[i]));
        }
        lemma_last_segment(dir, name.drop_last());
        assert(path.drop_last() =~= dir.push('/') + name.drop_last());
        assert(name.contains(name.last()));
        assert(name.drop_last().push(name.last()) =~= name);
    }
}

proof fn lemma_last_dot(front: Seq<char>, ext: Seq<char>)
    requires
        !ext.contains('.'),
    ensures
        last_dot(front.push('.') + ext) == front.len(),
    decreases ext.len(),
{
    let name = front.push('.') + ext;
    if ext.len() == 0 {
        assert(name =~= front.push('.'));
    } else {
        assert forall|i: int| 0 <= i < ext.drop_last().len() implies ext.drop_last()[i] != '.' by {
            assert(ext.contains(ext[i]));
        }
        lemma_last_dot(front, ext.drop_last());
        assert(name.drop_last() =~= front.push('.') + ext.drop_last());
        assert(ext.contains(ext.last()));
    }
}

proof fn lemma_no_dot(name: Seq<char>)
    requires
        !name.contains('.'),
    ensures
        last_dot(name) == -1,
    decreases name.len(),
{
    if name.len() > 0 {
        assert forall|i: int| 0 <= i < name.drop_last().len() implies name.drop_last()[i]
            != '.' by {
            assert(name.contains(name[i]));
        }
        lemma_no_dot(name.drop_last());
        assert(name.contains(name.last()));
    }
}

/// The path of a file in a directory.
pub open spec fn file_in(dir: Seq<char>, front: Seq<char>, ext: Seq<char>) -> Seq<char> {
    dir.push('/') + (front.push('.') + ext)
}

/// Whether a file name is made of a part before its last dot and a part behind it.
pub open spec fn is_split_name(front: Seq<char>, ext: Seq<char>) -> bool {
    &&& front.len() > 0
    &&& ext.len() > 0
    &&& !front.contains('/')
    &&& !ext.contains('/')
    &&& !ext.contains('.')
}

proof fn lemma_file_in(dir: Seq<char>, front: Seq<char>, ext: Seq<char>)
    requires
        is_split_name(front, ext),
    ensures
        file_name(file_in(dir, front, ext)) == front.push('.') + ext,
        without_endings(file_in(dir, front, ext)) == file_in(dir, front, ext),
        stem(front.push('.') + ext) == front,
        extension(front.push('.') + ext) == Some(ext),
        is_plain(file_in(dir, front, ext)) ==> is_portable(file_in(dir, front, ext)),
{
    let path = file_in(dir, front, ext);
    let name = front.push('.') + ext;
    assert forall|i: int| 0 <= i < name.len() implies name[i] != '/' by {
        if i < front.len() {
            assert(front.contains(front[i]));
        } else if i > front.len() {
            assert(ext.contains(ext[i - front.len() - 1]));
        }
    }
    assert(path.last() == ext.last());
    assert(ext.contains(ext.last()));
    assert(without_endings(path) == path);
    lemma_last_segment(dir, name);
    lemma_last_dot(front, ext);
    assert(name.take(front.len() as int) =~= front);
    assert(name.skip(front.len() as int + 1) =~= ext);
    assert(name.len() >= 3);
}

/// A plugin goes by the name of its file without the extension, whatever directory
/// the file is in.
pub proof fn law_name_of_a_plugin(
    path: &str,
    dir: Seq<char>,
    front: Seq<char>,
    ext: Seq<char>,
    r: String,
)
    requires
        call_ensures(plugin_name, (path,), r),
        path@ == file_in(dir, front, ext),
        is_split_name(front, ext),
        is_plain(path@),
    ensures
        r@ == front,
        is_name_of(r@, path@),
{
    lemma_file_in(dir, front, ext);
}

/// A path that ends in no file name has a plugin of an unknown name, and none that
/// can be loaded.
pub proof fn law_no_name(path: &str, r: String, plugin: bool)
    requires
        call_ensures(plugin_name, (path,), r),
        call_ensures(is_plugin_file, (path,), plugin),
        is_plain(path@),
        path@.len() == 0 || path@ == seq!['/'] || path@ == seq!['.', '.'] || (exists|dir: Seq<char>|
            path@ == #[trigger] dir.push('/') + seq!['.', '.']),
    ensures
        r@ == "unknown"@,
        !plugin,
        names_no_file(path@),
{
    if path@ == seq!['/'] {
        reveal_with_fuel(without_endings, 2);
        assert(path@.drop_last() =~= Seq::<char>::empty());
    } else if path@.len() > 0 {
        assert(path@.last() == '.');
        assert(path@[path@.len() - 2] == '.');
        assert(without_endings(path@) == path@);
        if path@ == seq!['.', '.'] {
            reveal_with_fuel(last_segment, 3);
            assert(path@.drop_last().drop_last() =~= Seq::<char>::empty());
            assert(last_segment(path@) =~= seq!['.', '.']);
        } else {
            let dir = choose|dir: Seq<char>| path@ == #[trigger] dir.push('/') + seq!['.', '.'];
            lemma_last_segment(dir, seq!['.', '.']);
        }
    }
}

/// A file holds a plugin exactly if its extension says so.
pub proof fn law_files_that_hold_plugins(
    path: &str,
    dir: Seq<char>,
    front: Seq<char>,
    ext: Seq<char>,
    r: bool,
)
    requires
        call_ensures(is_plugin_file, (path,), r),
        path@ == file_in(dir, front, ext),
        is_split_name(front, ext),
        is_plain(path@),
    ensures
        r <==> ext == "wasm"@,
{
    lemma_file_in(dir, front, ext);
}

/// The settings of a plugin lie beside it, under its name.
pub proof fn law_place_of_settings(
    path: &str,
    dir: Seq<char>,
    front: Seq<char>,
    ext: Seq<char>,
    r: String,
)
    requires
        call_ensures(config_path, (path,), r),
        path@ == file_in(dir, front, ext),
        is_split_name(front, ext),
        is_plain(path@),
    ensures
        r@ == file_in(dir, front, "json"@),
{
    lemma_file_in(dir, front, ext);
    reveal_strlit(".");
    let name = front.push('.') + ext;
    assert(path@.take(path@.len() - name.len()) =~= dir.push('/'));
    assert(with_extension(path@, "json"@) =~= file_in(dir, front, "json"@));
}

proof fn lemma_segment_alone(name: Seq<char>)
    requires
        !name.contains('/'),
    ensures
        last_segment(name) == name,
    decreases name.len(),
{
    if name.len() > 0 {
        assert forall|i: int| 0 <= i < name.drop_last().len() implies name.drop_last()[i]
            != '/' by {
            assert(name.contains(name[i]));
        }
        lemma_segment_alone(name.drop_last());
        assert(name.contains(name.last()));
        assert(name.drop_last().push(name.last()) =~= name);
    } else {
        assert(last_segment(name) =~= name);
    }
}

/// A file name alone is its own path, and what stands behind a slash is the name of
/// the file; a slash at the end, and a dot alone behind one, change nothing.
pub proof fn law_file_names(dir: Seq<char>, name: Seq<char>, path: Seq<char>)
    requires
        name.len() > 0,
        !name.contains('/'),
        name != seq!['.'],
    ensures
        file_name(name) == name,
        file_name(dir.push('/') + name) == name,
        file_name(path.push('/')) == file_name(path),
        file_name(path.push('/').push('.')) == file_name(path),
{
    assert(path.push('/').drop_last() =~= path);
    assert(path.push('/').push('.').drop_last() =~= path.push('/'));
    assert(without_endings(path.push('/')) == without_endings(path));
    assert(without_endings(path.push('/').push('.')) == without_endings(path.push('/')));
    assert(name.contains(name.last()));
    lemma_segment_alone(name);
    lemma_last_segment(dir, name);
    let long = dir.push('/') + name;
    assert(long.last() == name.last());
    if name.len() > 1 {
        assert(name.contains(name[name.len() - 2]));
        assert(long[long.len() - 2] == name[name.len() - 2]);
    } else {
        assert(name =~= seq![name.last()]);
    }
    assert(without_endings(name) == name);
    assert(without_endings(long) == long);
}

/// A path is plain exactly if it holds no backslash, no colon in the second place
/// and no two slashes at its start.
pub proof fn law_plain_paths(path: Seq<char>)
    ensures
        path.len() < 2 && !path.contains('\\') ==> is_plain(path),
        path.contains('\\') ==> !is_plain(path),
        path.len() >= 2 && !path.contains('\\') ==> (is_plain(path) <==> path[1] != ':' && !(
        path[0] == '/' && path[1] == '/')),
        is_portable(path) <==> is_plain(path) && file_name(path).len() > 0 && file_name(path)
            != seq!['.'] && file_name(path) != seq!['.', '.'],
{
}

/// A file name whose only dot is at its start, or that has none, has no extension.
pub proof fn law_names_without_extension(rest: Seq<char>)
    requires
        !rest.contains('.'),
    ensures
        extension(rest) is None,
        stem(rest) == rest,
        extension(seq!['.'] + rest) is None,
        stem(seq!['.'] + rest) == seq!['.'] + rest,
{
    lemma_no_dot(rest);
    lemma_last_dot(Seq::empty(), rest);
    assert(Seq::<char>::empty().push('.') + rest =~= seq!['.'] + rest);
}

/// The name of a plugin is the stem of its file, if there is one, and only one
/// extension is that of plugins.
pub proof fn law_stems_and_extensions(
    text: String,
    named: String,
    unnamed: String,
    holds: bool,
    nothing: bool,
)
    requires
        call_ensures(name_from_stem, (Some(text),), named),
        call_ensures(name_from_stem, (None,), unnamed),
        call_ensures(is_plugin_extension, (Some(text),), holds),
        call_ensures(is_plugin_extension, (None,), nothing),
    ensures
        named@ == text@,
        unnamed@ == "unknown"@,
        holds <==> text@ == "wasm"@,
        !nothing,
{
}

/// A text and an outside error become an error of no part of the bot, with what was
/// said.
pub proof fn law_errors_from_elsewhere(
    text: String,
    outside: anyhow::Error,
    from_text: BotError,
    from_outside: BotError,
)
    requires
        call_ensures(<BotError as From<String>>::from, (text,), from_text),
        call_ensures(<BotError as From<anyhow::Error>>::from, (outside,), from_outside),
    ensures
        from_text matches BotError::Other(s) && s == text,
        from_outside matches BotError::Other(s) && may_show(outside, s@),
{
}

} // verus!
