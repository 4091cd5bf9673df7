use vstd::prelude::*;

use crate::text::{
    chars_of, decimal, has_prefix, parse_u32, same_chars, slice_of, split_once, split_once_at,
    starts_with, string_of, u32_text,
};

verus! {

/// A message that the page sends to the window.
pub enum Command {
    /// Toggle whether the window stays on top.
    Pin,
    /// Minimise the window.
    Minimize,
    /// Toggle between maximised and normal size.
    Maximize,
    /// The window's close button.
    Close,
    /// Put this text on the clipboard.
    Copy(String),
    /// Give the window this inner width and height.
    Resize(u32, u32),
    /// Set this setting to this value.
    Setting(String, String),
    /// Anything else; it is ignored.
    Ignore,
}

/// A page message, with its texts as character sequences.
pub enum CommandView {
    Pin,
    Minimize,
    Maximize,
    Close,
    Copy(Seq<char>),
    Resize(u32, u32),
    Setting(Seq<char>, Seq<char>),
    Ignore,
}

impl View for Command {
    type V = CommandView;

    open spec fn view(&self) -> CommandView {
        match self {
            Command::Pin => CommandView::Pin,
            Command::Minimize => CommandView::Minimize,
            Command::Maximize => CommandView::Maximize,
            Command::Close => CommandView::Close,
            Command::Copy(t) => CommandView::Copy(t@),
            Command::Resize(w, h) => CommandView::Resize(*w, *h),
            Command::Setting(k, v) => CommandView::Setting(k@, v@),
            Command::Ignore => CommandView::Ignore,
        }
    }
}

/// `s` without its first `n` characters.
pub open spec fn after(s: Seq<char>, n: nat) -> Seq<char> {
    s.subrange(n as int, s.len() as int)
}

/// The size in a `resize,` message: a width and a height, both `u32`
/// numbers, around the first `x`.
pub open spec fn resize_of(dims: Seq<char>) -> CommandView {
    match split_once(dims, 'x') {
        Some((w, h)) => match (u32_text(w), u32_text(h)) {
            (Some(w), Some(h)) => CommandView::Resize(w, h),
            _ => CommandView::Ignore,
        },
        None => CommandView::Ignore,
    }
}

/// The setting in a `cfg:` message: a key and a value around the first `:`.
pub open spec fn setting_of(kv: Seq<char>) -> CommandView {
    match split_once(kv, ':') {
        Some((k, v)) => CommandView::Setting(k, v),
        None => CommandView::Ignore,
    }
}

/// What a page message asks for: `pin`, `min`, `max` and `close` as whole
/// messages; `copy:` followed by the text; `resize,` followed by the size;
/// `cfg:` followed by the setting; anything else is ignored.
pub open spec fn command_of(body: Seq<char>) -> CommandView {
    if body == "pin"@ {
        CommandView::Pin
    } else if body == "min"@ {
        CommandView::Minimize
    } else if body == "max"@ {
        CommandView::Maximize
    } else if body == "close"@ {
        CommandView::Close
    } else if starts_with(body, "copy:"@) {
        CommandView::Copy(after(body, "copy:"@.len()))
    } else if starts_with(body, "resize,"@) {
        resize_of(after(body, "resize,"@.len()))
    } else if starts_with(body, "cfg:"@) {
        setting_of(after(body, "cfg:"@.len()))
    } else {
        CommandView::Ignore
    }
}

/// Reads a message from the page.
pub fn parse_command(body: &str) -> (c: Command)
    ensures
        c@ == command_of(body@),
{
    let b = chars_of(body);
    if same_chars(&b, &chars_of("pin")) {
        return Command::Pin;
    }
    if same_chars(&b, &chars_of("min")) {
        return Command::Minimize;
    }
    if same_chars(&b, &chars_of("max")) {
        return Command::Maximize;
    }
    if same_chars(&b, &chars_of("close")) {
        return Command::Close;
    }
    let copy = chars_of("copy:");
    if has_prefix(&b, &copy) {
        let text = slice_of(&b, copy.len(), b.len());
        return Command::Copy(string_of(&text));
    }
    let resize = chars_of("resize,");
    if has_prefix(&b, &resize) {
        let dims = slice_of(&b, resize.len(), b.len());
        return match split_once_at(&dims, 'x') {
            Some((w, h)) => match (parse_u32(&w), parse_u32(&h)) {
                (Some(w), Some(h)) => Command::Resize(w, h),
                _ => Command::Ignore,
            },
            None => Command::Ignore,
        };
    }
    let cfg = chars_of("cfg:");
    if has_prefix(&b, &cfg) {
        let kv = slice_of(&b, cfg.len(), b.len());
        return match split_once_at(&kv, ':') {
            Some((k, v)) => Command::Setting(string_of(&k), string_of(&v)),
            None => Command::Ignore,
        };
    }
    Command::Ignore
}

/// A `copy:` message carries any text, and reading it gives that text back.
pub proof fn copy_message_carries_text(text: Seq<char>)
    ensures
        command_of("copy:"@ + text) == CommandView::Copy(text),
{
    let body = "copy:"@ + text;
    reveal_strlit("copy:");
    reveal_strlit("pin");
    reveal_strlit("min");
    reveal_strlit("max");
    reveal_strlit("close");
    assert(body[4] == ':');
    assert(body != "close"@) by {
        assert("close"@[4] == 'e');
    }
    assert(body.subrange(0, 5) =~= "copy:"@);
    assert(after(body, 5) =~= text);
}

/// A `resize,` message built from two numbers in decimal reads back as those
/// two numbers.
pub proof fn resize_message_carries_size(w: u32, h: u32)
    ensures
        command_of("resize,"@ + decimal(w as nat) + "x"@ + decimal(h as nat))
            == CommandView::Resize(w, h),
{
    let dw = decimal(w as nat);
    let dh = decimal(h as nat);
    let dims = dw + "x"@ + dh;
    let body = "resize,"@ + dims;
    reveal_strlit("resize,");
    reveal_strlit("x");
    reveal_strlit("pin");
    reveal_strlit("min");
    reveal_strlit("max");
    reveal_strlit("close");
    reveal_strlit("copy:");
    assert(body =~= "resize,"@ + decimal(w as nat) + "x"@ + decimal(h as nat));
    assert(body[0] == 'r');
    assert(body.len() >= 7);
    assert(body != "pin"@ && body != "min"@ && body != "max"@);
    assert(body != "close"@) by {
        assert(body[0] != "close"@[0]);
    }
    assert(!starts_with(body, "copy:"@)) by {
        assert(body.subrange(0, 5)[0] == 'r');
    }
    assert(body.subrange(0, 7) =~= "resize,"@);
    assert(after(body, 7) =~= dims);
    crate::text::decimal_parses_back(w);
    crate::text::decimal_parses_back(h);
    lemma_decimal_has_no_x(w as nat);
    let i = dw.len() as int;
    assert(dims[i] == 'x');
    assert(crate::text::is_first_index(dims, 'x', i));
    let k = choose|k: int| crate::text::is_first_index(dims, 'x', k);
    assert(k == i) by {
        if k < i {
            assert(dims[k] == dw[k]);
        } else if k > i {
            assert(dims[i] != 'x');
        }
    }
    assert(dims.subrange(0, i) =~= dw);
    assert(dims.subrange(i + 1, dims.len() as int) =~= dh);
}

proof fn lemma_decimal_has_no_x(n: nat)
    ensures
        forall|i: int| 0 <= i < decimal(n).len() ==> decimal(n)[i] != 'x',
    decreases n,
{
    if n >= 10 {
        lemma_decimal_has_no_x(n / 10);
        let s = decimal(n / 10).push(crate::text::digit_char(n % 10));
        assert(decimal(n) == s);
        assert forall|i: int| 0 <= i < s.len() implies s[i] != 'x' by {
            if i < s.len() - 1 {
                assert(s[i] == decimal(n / 10)[i]);
            }
        }
    }
}

/// A `cfg:` message built from a key without `:` and any value reads back as
/// that key and that value.
pub proof fn setting_message_carries_setting(key: Seq<char>, value: Seq<char>)
    requires
        forall|i: int| 0 <= i < key.len() ==> key[i] != ':',
    ensures
        command_of("cfg:"@ + key + ":"@ + value) == CommandView::Setting(key, value),
{
    let kv = key + ":"@ + value;
    let body = "cfg:"@ + kv;
    reveal_strlit("cfg:");
    reveal_strlit(":");
    reveal_strlit("pin");
    reveal_strlit("min");
    reveal_strlit("max");
    reveal_strlit("close");
    reveal_strlit("copy:");
    reveal_strlit("resize,");
    assert(body =~= "cfg:"@ + key + ":"@ + value);
    assert(body[0] == 'c' && body[1] == 'f');
    assert(body != "pin"@ && body != "min"@ && body != "max"@);
    assert(body != "close"@) by {
        assert(body[1] != "close"@[1]);
    }
    assert(!starts_with(body, "copy:"@)) by {
        if body.len() >= 5 {
            assert(body.subrange(0, 5)[1] == 'f');
        }
    }
    assert(!starts_with(body, "resize,"@)) by {
        if body.len() >= 7 {
            assert(body.subrange(0, 7)[0] == 'c');
        }
    }
    assert(body.subrange(0, 4) =~= "cfg:"@);
    assert(after(body, 4) =~= kv);
    let i = key.len() as int;
    assert(kv[i] == ':');
    assert(crate::text::is_first_index(kv, ':', i));
    let k = choose|k: int| crate::text::is_first_index(kv, ':', k);
    assert(k == i) by {
        if k < i {
            assert(kv[k] == key[k]);
        } else if k > i {
            assert(kv[i] != ':');
        }
    }
    assert(kv.subrange(0, i) =~= key);
    assert(kv.subrange(i + 1, kv.len() as int) =~= value);
}

/// The four window words are read as their commands.
pub proof fn window_words_are_commands()
    ensures
        command_of("pin"@) == CommandView::Pin,
        command_of("min"@) == CommandView::Minimize,
        command_of("max"@) == CommandView::Maximize,
        command_of("close"@) == CommandView::Close,
{
    reveal_strlit("pin");
    reveal_strlit("min");
    reveal_strlit("max");
    reveal_strlit("close");
    assert("min"@[0] != "pin"@[0]);
    assert("max"@[0] != "pin"@[0] && "max"@[1] != "min"@[1]);
    assert("close"@.len() != "pin"@.len());
}

} // verus!
