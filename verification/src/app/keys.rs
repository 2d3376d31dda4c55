//! The key bindings that the help tab lists.

use crate::text::{
    copy_of, fields_of, first_char, lines, lines_of, split, starts_with_char, trim, trimmed, views,
};
use crate::widget::style::TuiColor;
use crate::widget::text::{span_views, Span, Spans, SpanView, Text, TuiStyle, BOLD};
use vstd::prelude::*;

verus! {

/// Representation of an individual key binding.
#[derive(Clone, Copy, Debug)]
pub struct KeyBinding<'a> {
    /// Key binding.
    pub key: &'a str,
    /// Brief description of the key binding action.
    pub action: &'a str,
    /// Full description of the action along with the commands.
    pub description: &'a str,
}

/// An entry of a list widget.
#[derive(Clone, Debug, PartialEq, Eq)]
pub struct ListItem {
    /// The text of the entry.
    pub content: Text,
}

impl ListItem {
    /// An entry with the given text.
    pub fn new(content: Text) -> (r: ListItem)
        ensures
            r.content == content,
    {
        ListItem { content }
    }
}

/// The keys of a binding, each between brackets and followed by a blank.
pub open spec fn keys_text(keys: Seq<Seq<char>>) -> Seq<char>
    decreases keys.len(),
{
    if keys.len() == 0 {
        Seq::empty()
    } else {
        keys_text(keys.drop_last()) + "["@ + keys.last() + "] "@
    }
}

/// A key binding as plain text: the keys, and the action below.
pub open spec fn binding_text(key: Seq<char>, action: Seq<char>) -> Seq<char> {
    keys_text(fields_of(key, ',')) + "\n └─"@ + action + "\n "@
}

/// A line of a description: the line without the whitespace around it,
/// and a line feed; a line that starts with `:` is in the style of
/// commands.
pub open spec fn description_line(line: Seq<char>, command_style: TuiStyle) -> Seq<SpanView> {
    let text = trimmed(line) + "\n"@;
    seq![
        SpanView {
            content: text,
            style: if first_char(text) == Some(':') {
                command_style
            } else {
                TuiStyle::plain()
            },
        },
    ]
}

/// The style of a key in the colored list.
pub open spec fn key_style() -> TuiStyle {
    TuiStyle { fg: Some(TuiColor::Green), bg: None, add_modifier: BOLD, sub_modifier: 0 }
}

/// The spans of the keys of a binding in the colored list.
pub open spec fn key_spans(keys: Seq<Seq<char>>, highlight: TuiStyle) -> Seq<SpanView>
    decreases keys.len(),
{
    if keys.len() == 0 {
        Seq::empty()
    } else {
        key_spans(keys.drop_last(), highlight) + seq![
            SpanView { content: "["@, style: highlight },
            SpanView { content: keys.last(), style: key_style() },
            SpanView { content: "] "@, style: highlight },
        ]
    }
}

/// A key binding as an entry of the help list.
pub open spec fn list_item_lines(
    key: Seq<char>,
    action: Seq<char>,
    colored: bool,
    highlighted: bool,
) -> Seq<Seq<SpanView>> {
    if colored {
        let highlight = if highlighted {
            TuiStyle::colored(TuiColor::Reset)
        } else {
            TuiStyle::plain()
        };
        seq![
            key_spans(fields_of(key, ','), highlight),
            seq![
                SpanView { content: " └─"@, style: TuiStyle::colored(TuiColor::DarkGray) },
                SpanView { content: action, style: highlight },
            ],
            Seq::empty(),
        ]
    } else {
        lines_of(binding_text(key, action)).map_values(
            |line: Seq<char>| seq![SpanView { content: line, style: TuiStyle::plain() }],
        )
    }
}

impl<'a> KeyBinding<'a> {
    /// Constructs a new instance of `KeyBinding`.
    pub fn new(key: &'a str, action: &'a str, description: &'a str) -> (r: Self)
        ensures
            r.key@ == key@,
            r.action@ == action@,
            r.description@ == description@,
    {
        Self { key, action, description }
    }

    /// The key binding as plain text: each key between brackets, and the
    /// action on the line below.
    pub fn to_string(&self) -> (r: String)
        ensures
            r@ == binding_text(self.key@, self.action@),
    {
        let keys = split(self.key, ',');
        let mut out = String::new();
        let mut i: usize = 0;
        assert(views(keys@).take(0) == Seq::<Seq<char>>::empty());
        while i < keys.len()
            invariant
                i <= keys.len(),
                out@ == keys_text(views(keys@).take(i as int)),
            decreases keys.len() - i,
        {
            assert(views(keys@).take(i + 1).drop_last() == views(keys@).take(i as int));
            assert(views(keys@).take(i + 1).last() == keys@[i as int]@);
            out.append("[");
            out.append(keys[i].as_str());
            out.append("] ");
            i += 1;
        }
        assert(views(keys@).take(i as int) == views(keys@));
        out.append("\n └─");
        out.append(self.action);
        out.append("\n ");
        out
    }

    /// Returns the description text of the key binding.
    pub fn get_description_text(&self, command_style: TuiStyle) -> (text: Text)
        ensures
            text@ == lines_of(self.description@).map_values(
                |line: Seq<char>| description_line(line, command_style),
            ),
    {
        let all = lines(self.description);
        let mut out: Vec<Spans> = Vec::new();
        let mut i: usize = 0;
        while i < all.len()
            invariant
                i <= all.len(),
                out.len() == i,
                forall|j: int|
                    0 <= j < i ==> (#[trigger] out@[j])@ == description_line(
                        all@[j]@,
                        command_style,
                    ),
            decreases all.len() - i,
        {
            let mut line = trim(all[i].as_str());
            line.append("\n");
            let style = if starts_with_char(line.as_str(), ':') {
                command_style
            } else {
                TuiStyle::default()
            };
            let mut spans: Vec<Span> = Vec::new();
            spans.push(Span::styled(line, style));
            let row = Spans(spans);
            assert(row@ =~= description_line(all@[i as int]@, command_style));
            out.push(row);
            i += 1;
        }
        let text = Text { lines: out };
        assert(text@ =~= views(all@).map_values(
            |line: Seq<char>| description_line(line, command_style),
        ));
        text
    }

    /// Returns the key binding as a list item.
    pub fn as_list_item(&self, colored: bool, highlighted: bool) -> (item: ListItem)
        ensures
            item.content@ == list_item_lines(self.key@, self.action@, colored, highlighted),
    {
        let highlight = if highlighted {
            TuiStyle::with_fg(TuiColor::Reset)
        } else {
            TuiStyle::default()
        };
        if colored {
            let keys = split(self.key, ',');
            let mut spans: Vec<Span> = Vec::new();
            let mut i: usize = 0;
            assert(views(keys@).take(0) == Seq::<Seq<char>>::empty());
            assert(span_views(spans@) == Seq::<SpanView>::empty());
            while i < keys.len()
                invariant
                    i <= keys.len(),
                    span_views(spans@) == key_spans(views(keys@).take(i as int), highlight),
                decreases keys.len() - i,
            {
                let ghost before = span_views(spans@);
                assert(views(keys@).take(i + 1).drop_last() == views(keys@).take(i as int));
                assert(views(keys@).take(i + 1).last() == keys@[i as int]@);
                spans.push(Span::styled(copy_of("["), highlight));
                spans.push(
                    Span::styled(
                        keys[i].clone(),
                        TuiStyle {
                            fg: Some(TuiColor::Green),
                            bg: None,
                            add_modifier: BOLD,
                            sub_modifier: 0,
                        },
                    ),
                );
                spans.push(Span::styled(copy_of("] "), highlight));
                assert(span_views(spans@) =~= before + seq![
                    SpanView { content: "["@, style: highlight },
                    SpanView { content: keys@[i as int]@, style: key_style() },
                    SpanView { content: "] "@, style: highlight },
                ]);
                i += 1;
            }
            assert(views(keys@).take(i as int) == views(keys@));
            let mut second: Vec<Span> = Vec::new();
            second.push(Span::styled(copy_of(" └─"), TuiStyle::with_fg(TuiColor::DarkGray)));
            second.push(Span::styled(copy_of(self.action), highlight));
            assert(span_views(second@) =~= seq![
                SpanView { content: " └─"@, style: TuiStyle::colored(TuiColor::DarkGray) },
                SpanView { content: self.action@, style: highlight },
            ]);
            let third: Vec<Span> = Vec::new();
            assert(span_views(third@) =~= Seq::<SpanView>::empty());
            let mut rows: Vec<Spans> = Vec::new();
            rows.push(Spans(spans));
            rows.push(Spans(second));
            rows.push(Spans(third));
            let text = Text { lines: rows };
            assert(text@ =~= list_item_lines(self.key@, self.action@, colored, highlighted));
            ListItem::new(text)
        } else {
            let plain = self.to_string();
            let all = lines(plain.as_str());
            let mut rows: Vec<Spans> = Vec::new();
            let mut i: usize = 0;
            while i < all.len()
                invariant
                    i <= all.len(),
                    rows.len() == i,
                    forall|j: int|
                        0 <= j < i ==> (#[trigger] rows@[j])@ == seq![
                            SpanView { content: all@[j]@, style: TuiStyle::plain() },
                        ],
                decreases all.len() - i,
            {
                let mut spans: Vec<Span> = Vec::new();
                spans.push(Span::raw(all[i].clone()));
                let row = Spans(spans);
                assert(row@ =~= seq![
                    SpanView { content: all@[i as int]@, style: TuiStyle::plain() },
                ]);
                rows.push(row);
                i += 1;
            }
            let text = Text { lines: rows };
            assert(text@ =~= views(all@).map_values(
                |line: Seq<char>| seq![SpanView { content: line, style: TuiStyle::plain() }],
            ));
            ListItem::new(text)
        }
    }
}

/// What a key binding says.
pub struct KeyBindingView {
    pub key: Seq<char>,
    pub action: Seq<char>,
    pub description: Seq<char>,
}

impl<'a> View for KeyBinding<'a> {
    type V = KeyBindingView;

    open spec fn view(&self) -> KeyBindingView {
        KeyBindingView { key: self.key@, action: self.action@, description: self.description@ }
    }
}

/// The views of a sequence of key bindings.
pub open spec fn key_binding_views(bindings: Seq<KeyBinding<'static>>) -> Seq<KeyBindingView> {
    Seq::new(bindings.len(), |i: int| bindings[i]@)
}

/// The number of key bindings that the help tab lists.
pub const KEY_BINDING_COUNT: usize = 26;

/// The key bindings that the help tab lists, in their order.
pub open spec fn key_binding_table() -> Seq<KeyBindingView> {
    seq![
        KeyBindingView { key: "?"@, action: "show help"@, description: r#"
        Use arrow keys / hjkl to navigate through the key bindings.
        Corresponding commands and additional information will be shown here.
        :help
        "#@ },
        KeyBindingView { key: "o,space,enter"@, action: "show options"@, description: r#"
        Shows the options menu for the current tab.
        :options
        "#@ },
        KeyBindingView { key: "hjkl,arrows,pgkeys"@, action: "navigate"@, description: r#"
        Scrolls the current widget or selects the next/previous tab.
        M-<key>: scroll the table rows
        C-<key>,pgup,pgdown: scroll to top/bottom
        :scroll (row) up/down/left/right <amount>
        "#@ },
        KeyBindingView { key: "n"@, action: "switch to normal mode"@, description: r#"
        Resets the application mode.
        :normal
        "#@ },
        KeyBindingView { key: "v"@, action: "switch to visual mode"@, description: r#"
        Disables the mouse capture.
        :visual
        "#@ },
        KeyBindingView { key: "c"@, action: "switch to copy mode"@, description: r#"
        x: Copy the exported key
        i: Copy the key id
        f: Copy the key fingerprint
        u: Copy the user id
        1,2: Copy the content of the row
        :copy
        "#@ },
        KeyBindingView { key: "p,C-v"@, action: "paste from clipboard"@, description: ":paste"@ },
        KeyBindingView { key: "x"@, action: "export key"@, description: r#"
        Exports the key to "$GNUPGHOME/out" or specified path via `--outdir`
        :export <pub/sec> <keyids>
        "#@ },
        KeyBindingView { key: "s"@, action: "sign key"@, description: r#"
        Signs the key with the default secret key.
        Same as `gpg --sign-key`
        :sign <keyid>
        "#@ },
        KeyBindingView { key: "e"@, action: "edit key"@, description: r#"
        Presents a menu for key management.
        Same as `gpg --edit-key`
        :edit <keyid>
        "#@ },
        KeyBindingView { key: "i"@, action: "import key(s)"@, description: r#"
        Imports the keys from given files.
        :import <file1> <file2>
        "#@ },
        KeyBindingView { key: "f"@, action: "receive key"@, description: r#"
        Imports the keys with the given key IDs from default keyserver.
        Same as `gpg --receive-keys`
        :receive <keyids>
        "#@ },
        KeyBindingView { key: "u"@, action: "send key"@, description: r#"
        Sends the key to the default keyserver.
        :send <keyid>
        "#@ },
        KeyBindingView { key: "g"@, action: "generate key"@, description: r#"
        Generates a new key pair with dialogs for all options.
        Same as `gpg --full-generate-key`
        :generate
        "#@ },
        KeyBindingView { key: "d,backspace"@, action: "delete key"@, description: r#"
        Removes the public/secret key from the keyring.
        :delete <pub/sec> <keyid>
        "#@ },
        KeyBindingView { key: "C-r"@, action: "refresh keys"@, description: r#"
        Requests updates for keys on the local keyring.
        Same as `gpg --refresh-keys`
        :refresh keys
        "#@ },
        KeyBindingView { key: "a"@, action: "toggle armored output"@, description: r#"
        Toggles ASCII armored output.
        The default is to create the binary OpenPGP format.
        :set armor <true/false>
        "#@ },
        KeyBindingView { key: "1,2,3"@, action: "set detail level"@, description: r#"
        1: Minimum
        2: Standard
        3: Full
        :set detail <level>
        "#@ },
        KeyBindingView { key: "t,tab"@, action: "toggle detail (all/selected)"@, description: ":toggle detail (all)"@ },
        KeyBindingView { key: "`"@, action: "toggle table margin"@, description: ":set margin <0/1>"@ },
        KeyBindingView { key: "m"@, action: "toggle table size"@, description: ":toggle"@ },
        KeyBindingView { key: "C-s"@, action: "toggle style"@, description: ":set colored <true/false>"@ },
        KeyBindingView { key: "/"@, action: "search"@, description: ":search <query>"@ },
        KeyBindingView { key: ":"@, action: "run command"@, description: "Switches to command mode for running commands."@ },
        KeyBindingView { key: "r,f5"@, action: "refresh application"@, description: ":refresh"@ },
        KeyBindingView { key: "q,C-c/d,escape"@, action: "quit application"@, description: ":quit"@ },
    ]
}

/// Key bindings of the application.
pub fn key_bindings() -> (out: Vec<KeyBinding<'static>>)
    ensures
        out.len() == KEY_BINDING_COUNT,
        key_binding_views(out@) == key_binding_table(),
{
    let mut out: Vec<KeyBinding<'static>> = Vec::new();
    out.push(KeyBinding::new("?", "show help", r#"
        Use arrow keys / hjkl to navigate through the key bindings.
        Corresponding commands and additional information will be shown here.
        :help
        "#));
    out.push(KeyBinding::new("o,space,enter", "show options", r#"
        Shows the options menu for the current tab.
        :options
        "#));
    out.push(KeyBinding::new("hjkl,arrows,pgkeys", "navigate", r#"
        Scrolls the current widget or selects the next/previous tab.
        M-<key>: scroll the table rows
        C-<key>,pgup,pgdown: scroll to top/bottom
        :scroll (row) up/down/left/right <amount>
        "#));
    out.push(KeyBinding::new("n", "switch to normal mode", r#"
        Resets the application mode.
        :normal
        "#));
    out.push(KeyBinding::new("v", "switch to visual mode", r#"
        Disables the mouse capture.
        :visual
        "#));
    out.push(KeyBinding::new("c", "switch to copy mode", r#"
        x: Copy the exported key
        i: Copy the key id
        f: Copy the key fingerprint
        u: Copy the user id
        1,2: Copy the content of the row
        :copy
        "#));
    out.push(KeyBinding::new("p,C-v", "paste from clipboard", ":paste"));
    out.push(KeyBinding::new("x", "export key", r#"
        Exports the key to "$GNUPGHOME/out" or specified path via `--outdir`
        :export <pub/sec> <keyids>
        "#));
    out.push(KeyBinding::new("s", "sign key", r#"
        Signs the key with the default secret key.
        Same as `gpg --sign-key`
        :sign <keyid>
        "#));
    out.push(KeyBinding::new("e", "edit key", r#"
        Presents a menu for key management.
        Same as `gpg --edit-key`
        :edit <keyid>
        "#));
    out.push(KeyBinding::new("i", "import key(s)", r#"
        Imports the keys from given files.
        :import <file1> <file2>
        "#));
    out.push(KeyBinding::new("f", "receive key", r#"
        Imports the keys with the given key IDs from default keyserver.
        Same as `gpg --receive-keys`
        :receive <keyids>
        "#));
    out.push(KeyBinding::new("u", "send key", r#"
        Sends the key to the default keyserver.
        :send <keyid>
        "#));
    out.push(KeyBinding::new("g", "generate key", r#"
        Generates a new key pair with dialogs for all options.
        Same as `gpg --full-generate-key`
        :generate
        "#));
    out.push(KeyBinding::new("d,backspace", "delete key", r#"
        Removes the public/secret key from the keyring.
        :delete <pub/sec> <keyid>
        "#));
    out.push(KeyBinding::new("C-r", "refresh keys", r#"
        Requests updates for keys on the local keyring.
        Same as `gpg --refresh-keys`
        :refresh keys
        "#));
    out.push(KeyBinding::new("a", "toggle armored output", r#"
        Toggles ASCII armored output.
        The default is to create the binary OpenPGP format.
        :set armor <true/false>
        "#));
    out.push(KeyBinding::new("1,2,3", "set detail level", r#"
        1: Minimum
        2: Standard
        3: Full
        :set detail <level>
        "#));
    out.push(KeyBinding::new("t,tab", "toggle detail (all/selected)", ":toggle detail (all)"));
    out.push(KeyBinding::new("`", "toggle table margin", ":set margin <0/1>"));
    out.push(KeyBinding::new("m", "toggle table size", ":toggle"));
    out.push(KeyBinding::new("C-s", "toggle style", ":set colored <true/false>"));
    out.push(KeyBinding::new("/", "search", ":search <query>"));
    out.push(KeyBinding::new(":", "run command", "Switches to command mode for running commands."));
    out.push(KeyBinding::new("r,f5", "refresh application", ":refresh"));
    out.push(KeyBinding::new("q,C-c/d,escape", "quit application", ":quit"));
    assert(key_binding_views(out@) =~= key_binding_table());
    out
}

} // verus!
