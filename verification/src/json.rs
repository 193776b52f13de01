//! Serialization of follow-up messages and command descriptors into the
//! platform's JSON envelope format. The spec functions define the exact text
//! produced; the writers are proved to produce it.

use vstd::prelude::*;
use vstd::string::StrSliceExecFns;
use vstd::string::StringExecFns;
use crate::messages::ActionRow;
use crate::messages::CommandData;
use crate::messages::EmbedAuthor;
use crate::messages::EmbedField;
use crate::messages::EmbedFooter;
use crate::messages::EmbedImage;
use crate::messages::EmbedThumbnail;
use crate::messages::EmbedVideo;
use crate::messages::IntegrationType;
use crate::messages::InteractionContext;
use crate::messages::MessageData;
use crate::messages::MessageEmbed;
use crate::messages::UrlButtonComponent;

verus! {

/// Relies on String::push: appends the given character to the end of the
/// string.
pub assume_specification[ String::push ](s: &mut String, c: char)
    ensures
        final(s)@ == old(s)@.push(c),
;

/// The lower-case hexadecimal digit for a value below sixteen.
pub open spec fn hex_digit_char(n: int) -> char {
    if n == 0 {
        '0'
    } else if n == 1 {
        '1'
    } else if n == 2 {
        '2'
    } else if n == 3 {
        '3'
    } else if n == 4 {
        '4'
    } else if n == 5 {
        '5'
    } else if n == 6 {
        '6'
    } else if n == 7 {
        '7'
    } else if n == 8 {
        '8'
    } else if n == 9 {
        '9'
    } else if n == 10 {
        'a'
    } else if n == 11 {
        'b'
    } else if n == 12 {
        'c'
    } else if n == 13 {
        'd'
    } else if n == 14 {
        'e'
    } else {
        'f'
    }
}

fn hex_digit(n: u32) -> (c: char)
    requires
        n < 16,
    ensures
        c == hex_digit_char(n as int),
{
    if n == 0 {
        '0'
    } else if n == 1 {
        '1'
    } else if n == 2 {
        '2'
    } else if n == 3 {
        '3'
    } else if n == 4 {
        '4'
    } else if n == 5 {
        '5'
    } else if n == 6 {
        '6'
    } else if n == 7 {
        '7'
    } else if n == 8 {
        '8'
    } else if n == 9 {
        '9'
    } else if n == 10 {
        'a'
    } else if n == 11 {
        'b'
    } else if n == 12 {
        'c'
    } else if n == 13 {
        'd'
    } else if n == 14 {
        'e'
    } else {
        'f'
    }
}

/// The decimal representation of a number, most significant digit first, with
/// no leading zeroes (a lone zero for zero).
pub open spec fn dec_rep(n: nat) -> Seq<char>
    decreases n,
{
    if n < 10 {
        seq![hex_digit_char(n as int)]
    } else {
        dec_rep(n / 10) + seq![hex_digit_char((n % 10) as int)]
    }
}

fn write_u32(out: &mut String, n: u32)
    ensures
        final(out)@ == old(out)@ + dec_rep(n as nat),
    decreases n,
{
    if n < 10 {
        out.push(hex_digit(n));
    } else {
        write_u32(out, n / 10);
        out.push(hex_digit(n % 10));
    }
    proof {
        assert(out@ =~= old(out)@ + dec_rep(n as nat));
    }
}

/// How one character appears inside a JSON string literal: quote, backslash
/// and control characters are escaped, everything else stands as itself.
pub open spec fn escape_char(c: char) -> Seq<char> {
    if c == '"' {
        seq!['\\', '"']
    } else if c == '\\' {
        seq!['\\', '\\']
    } else if c == '\n' {
        seq!['\\', 'n']
    } else if c == '\r' {
        seq!['\\', 'r']
    } else if c == '\t' {
        seq!['\\', 't']
    } else if (c as u32) < 32 {
        seq!['\\', 'u', '0', '0', hex_digit_char(c as u32 as int / 16), hex_digit_char(
            c as u32 as int % 16,
        )]
    } else {
        seq![c]
    }
}

/// A text escaped for a JSON string literal, character by character.
pub open spec fn escaped(s: Seq<char>) -> Seq<char>
    decreases s.len(),
{
    if s.len() == 0 {
        Seq::empty()
    } else {
        escaped(s.drop_last()) + escape_char(s.last())
    }
}

/// A JSON string literal: the escaped text between double quotes.
pub open spec fn json_string(s: Seq<char>) -> Seq<char> {
    seq!['"'] + escaped(s) + seq!['"']
}

fn write_escaped_char(out: &mut String, c: char)
    ensures
        final(out)@ == old(out)@ + escape_char(c),
{
    if c == '"' {
        out.push('\\');
        out.push('"');
    } else if c == '\\' {
        out.push('\\');
        out.push('\\');
    } else if c == '\n' {
        out.push('\\');
        out.push('n');
    } else if c == '\r' {
        out.push('\\');
        out.push('r');
    } else if c == '\t' {
        out.push('\\');
        out.push('t');
    } else if (c as u32) < 32 {
        let n: u32 = c as u32;
        out.push('\\');
        out.push('u');
        out.push('0');
        out.push('0');
        out.push(hex_digit(n / 16));
        out.push(hex_digit(n % 16));
    } else {
        out.push(c);
    }
    proof {
        assert(out@ =~= old(out)@ + escape_char(c));
    }
}

fn write_json_string(out: &mut String, s: &str)
    ensures
        final(out)@ == old(out)@ + json_string(s@),
{
    out.push('"');
    let len = s.unicode_len();
    let mut i: usize = 0;
    while i < len
        invariant
            len == s@.len(),
            i <= len,
            out@ == old(out)@ + seq!['"'] + escaped(s@.take(i as int)),
        decreases len - i,
    {
        let c = s.get_char(i);
        write_escaped_char(out, c);
        proof {
            assert(s@.take(i + 1).drop_last() =~= s@.take(i as int));
            assert(out@ =~= old(out)@ + seq!['"'] + escaped(s@.take(i + 1)));
        }
        i = i + 1;
    }
    proof {
        assert(s@.take(len as int) =~= s@);
    }
    out.push('"');
    proof {
        assert(out@ =~= old(out)@ + json_string(s@));
    }
}

/// A JSON boolean.
pub open spec fn json_bool(b: bool) -> Seq<char> {
    if b {
        "true"@
    } else {
        "false"@
    }
}

fn write_bool(out: &mut String, b: bool)
    ensures
        final(out)@ == old(out)@ + json_bool(b),
{
    if b {
        out.append("true");
    } else {
        out.append("false");
    }
}

/// An optional JSON string: `null` when absent.
pub open spec fn json_opt_string(o: Option<String>) -> Seq<char> {
    match o {
        Option::None => "null"@,
        Option::Some(s) => json_string(s@),
    }
}

fn write_opt_string(out: &mut String, o: &Option<String>)
    ensures
        final(out)@ == old(out)@ + json_opt_string(*o),
{
    match o {
        Option::None => {
            out.append("null");
        },
        Option::Some(s) => {
            write_json_string(out, s.as_str());
        },
    }
}

/// An optional JSON number: `null` when absent.
pub open spec fn json_opt_u32(o: Option<u32>) -> Seq<char> {
    match o {
        Option::None => "null"@,
        Option::Some(n) => dec_rep(n as nat),
    }
}

fn write_opt_u32(out: &mut String, o: &Option<u32>)
    ensures
        final(out)@ == old(out)@ + json_opt_u32(*o),
{
    match o {
        Option::None => {
            out.append("null");
        },
        Option::Some(n) => {
            write_u32(out, *n);
        },
    }
}

/// A footer block.
pub open spec fn footer_json(f: EmbedFooter) -> Seq<char> {
    "{\"text\":"@ + json_string(f.text@) + ",\"icon_url\":"@ + json_opt_string(f.icon_url) + "}"@
}

fn write_footer(out: &mut String, f: &EmbedFooter)
    ensures
        final(out)@ == old(out)@ + footer_json(*f),
{
    out.append("{\"text\":");
    write_json_string(out, f.text.as_str());
    out.append(",\"icon_url\":");
    write_opt_string(out, &f.icon_url);
    out.append("}");
    proof {
        assert(out@ =~= old(out)@ + footer_json(*f));
    }
}

/// An image, thumbnail or video block: a single url member.
pub open spec fn url_object_json(url: Seq<char>) -> Seq<char> {
    "{\"url\":"@ + json_string(url) + "}"@
}

fn write_url_object(out: &mut String, url: &str)
    ensures
        final(out)@ == old(out)@ + url_object_json(url@),
{
    out.append("{\"url\":");
    write_json_string(out, url);
    out.append("}");
    proof {
        assert(out@ =~= old(out)@ + url_object_json(url@));
    }
}

/// An author block.
pub open spec fn author_json(a: EmbedAuthor) -> Seq<char> {
    "{\"name\":"@ + json_string(a.name@) + ",\"url\":"@ + json_opt_string(a.url)
        + ",\"icon_url\":"@ + json_opt_string(a.icon_url) + "}"@
}

fn write_author(out: &mut String, a: &EmbedAuthor)
    ensures
        final(out)@ == old(out)@ + author_json(*a),
{
    out.append("{\"name\":");
    write_json_string(out, a.name.as_str());
    out.append(",\"url\":");
    write_opt_string(out, &a.url);
    out.append(",\"icon_url\":");
    write_opt_string(out, &a.icon_url);
    out.append("}");
    proof {
        assert(out@ =~= old(out)@ + author_json(*a));
    }
}

/// One name/value field of a display block.
pub open spec fn field_json(f: EmbedField) -> Seq<char> {
    "{\"name\":"@ + json_string(f.name@) + ",\"value\":"@ + json_string(f.value@)
        + ",\"inline\":"@ + json_bool(f.inline) + "}"@
}

fn write_field(out: &mut String, f: &EmbedField)
    ensures
        final(out)@ == old(out)@ + field_json(*f),
{
    out.append("{\"name\":");
    write_json_string(out, f.name.as_str());
    out.append(",\"value\":");
    write_json_string(out, f.value.as_str());
    out.append(",\"inline\":");
    write_bool(out, f.inline);
    out.append("}");
    proof {
        assert(out@ =~= old(out)@ + field_json(*f));
    }
}

/// The comma-separated members of a field array, in order.
pub open spec fn fields_json(s: Seq<EmbedField>) -> Seq<char>
    decreases s.len(),
{
    if s.len() == 0 {
        Seq::empty()
    } else if s.len() == 1 {
        field_json(s[0])
    } else {
        fields_json(s.drop_last()) + seq![','] + field_json(s.last())
    }
}

fn write_fields(out: &mut String, fields: &Vec<EmbedField>)
    ensures
        final(out)@ == old(out)@ + seq!['['] + fields_json(fields@) + seq![']'],
{
    out.push('[');
    let mut i: usize = 0;
    while i < fields.len()
        invariant
            i <= fields@.len(),
            out@ == old(out)@ + seq!['['] + fields_json(fields@.take(i as int)),
        decreases fields@.len() - i,
    {
        if i > 0 {
            out.push(',');
        }
        write_field(out, &fields[i]);
        proof {
            assert(fields@.take(i + 1).drop_last() =~= fields@.take(i as int));
            assert(out@ =~= old(out)@ + seq!['['] + fields_json(fields@.take(i + 1)));
        }
        i = i + 1;
    }
    proof {
        assert(fields@.take(fields@.len() as int) =~= fields@);
    }
    out.push(']');
    proof {
        assert(out@ =~= old(out)@ + seq!['['] + fields_json(fields@) + seq![']']);
    }
}

/// An optional footer: `null` when absent.
pub open spec fn json_opt_footer(o: Option<EmbedFooter>) -> Seq<char> {
    match o {
        Option::None => "null"@,
        Option::Some(f) => footer_json(f),
    }
}

fn write_opt_footer(out: &mut String, o: &Option<EmbedFooter>)
    ensures
        final(out)@ == old(out)@ + json_opt_footer(*o),
{
    match o {
        Option::None => {
            out.append("null");
        },
        Option::Some(f) => {
            write_footer(out, f);
        },
    }
}

/// An optional image block: `null` when absent.
pub open spec fn json_opt_image(o: Option<EmbedImage>) -> Seq<char> {
    match o {
        Option::None => "null"@,
        Option::Some(v) => url_object_json(v.url@),
    }
}

fn write_opt_image(out: &mut String, o: &Option<EmbedImage>)
    ensures
        final(out)@ == old(out)@ + json_opt_image(*o),
{
    match o {
        Option::None => {
            out.append("null");
        },
        Option::Some(v) => {
            write_url_object(out, v.url.as_str());
        },
    }
}

/// An optional thumbnail block: `null` when absent.
pub open spec fn json_opt_thumbnail(o: Option<EmbedThumbnail>) -> Seq<char> {
    match o {
        Option::None => "null"@,
        Option::Some(v) => url_object_json(v.url@),
    }
}

fn write_opt_thumbnail(out: &mut String, o: &Option<EmbedThumbnail>)
    ensures
        final(out)@ == old(out)@ + json_opt_thumbnail(*o),
{
    match o {
        Option::None => {
            out.append("null");
        },
        Option::Some(v) => {
            write_url_object(out, v.url.as_str());
        },
    }
}

/// An optional video block: `null` when absent.
pub open spec fn json_opt_video(o: Option<EmbedVideo>) -> Seq<char> {
    match o {
        Option::None => "null"@,
        Option::Some(v) => url_object_json(v.url@),
    }
}

fn write_opt_video(out: &mut String, o: &Option<EmbedVideo>)
    ensures
        final(out)@ == old(out)@ + json_opt_video(*o),
{
    match o {
        Option::None => {
            out.append("null");
        },
        Option::Some(v) => {
            write_url_object(out, v.url.as_str());
        },
    }
}

/// An optional author block: `null` when absent.
pub open spec fn json_opt_author(o: Option<EmbedAuthor>) -> Seq<char> {
    match o {
        Option::None => "null"@,
        Option::Some(a) => author_json(a),
    }
}

fn write_opt_author(out: &mut String, o: &Option<EmbedAuthor>)
    ensures
        final(out)@ == old(out)@ + json_opt_author(*o),
{
    match o {
        Option::None => {
            out.append("null");
        },
        Option::Some(a) => {
            write_author(out, a);
        },
    }
}

/// An optional field array: `null` when absent.
pub open spec fn json_opt_fields(o: Option<Vec<EmbedField>>) -> Seq<char> {
    match o {
        Option::None => "null"@,
        Option::Some(v) => seq!['['] + fields_json(v@) + seq![']'],
    }
}

fn write_opt_fields(out: &mut String, o: &Option<Vec<EmbedField>>)
    ensures
        final(out)@ == old(out)@ + json_opt_fields(*o),
{
    match o {
        Option::None => {
            out.append("null");
        },
        Option::Some(v) => {
            write_fields(out, v);
        },
    }
}

/// One rich display block, every member present, `null` standing for an
/// absent one.
pub open spec fn embed_json(e: MessageEmbed) -> Seq<char> {
    "{\"title\":"@ + json_opt_string(e.title) + ",\"description\":"@ + json_opt_string(
        e.description,
    ) + ",\"url\":"@ + json_opt_string(e.url) + ",\"color\":"@ + json_opt_u32(e.color)
        + ",\"footer\":"@ + json_opt_footer(e.footer) + ",\"image\":"@ + json_opt_image(e.image)
        + ",\"thumbnail\":"@ + json_opt_thumbnail(e.thumbnail) + ",\"video\":"@ + json_opt_video(
        e.video,
    ) + ",\"author\":"@ + json_opt_author(e.author) + ",\"fields\":"@ + json_opt_fields(e.fields)
        + "}"@
}

#[verifier::rlimit(60)]
fn write_embed(out: &mut String, e: &MessageEmbed)
    ensures
        final(out)@ == old(out)@ + embed_json(*e),
{
    out.append("{\"title\":");
    write_opt_string(out, &e.title);
    out.append(",\"description\":");
    write_opt_string(out, &e.description);
    out.append(",\"url\":");
    write_opt_string(out, &e.url);
    out.append(",\"color\":");
    write_opt_u32(out, &e.color);
    out.append(",\"footer\":");
    write_opt_footer(out, &e.footer);
    out.append(",\"image\":");
    write_opt_image(out, &e.image);
    out.append(",\"thumbnail\":");
    write_opt_thumbnail(out, &e.thumbnail);
    out.append(",\"video\":");
    write_opt_video(out, &e.video);
    out.append(",\"author\":");
    write_opt_author(out, &e.author);
    out.append(",\"fields\":");
    write_opt_fields(out, &e.fields);
    out.append("}");
    proof {
        assert(out@ =~= old(out)@ + embed_json(*e));
    }
}

/// The comma-separated members of the embed array, in order.
pub open spec fn embeds_json(s: Seq<MessageEmbed>) -> Seq<char>
    decreases s.len(),
{
    if s.len() == 0 {
        Seq::empty()
    } else if s.len() == 1 {
        embed_json(s[0])
    } else {
        embeds_json(s.drop_last()) + seq![','] + embed_json(s.last())
    }
}

#[verifier::rlimit(60)]
fn write_embeds(out: &mut String, embeds: &Vec<MessageEmbed>)
    ensures
        final(out)@ == old(out)@ + embeds_json(embeds@),
{
    let mut i: usize = 0;
    while i < embeds.len()
        invariant
            i <= embeds@.len(),
            out@ == old(out)@ + embeds_json(embeds@.take(i as int)),
        decreases embeds@.len() - i,
    {
        if i > 0 {
            out.push(',');
        }
        write_embed(out, &embeds[i]);
        proof {
            assert(embeds@.take(i + 1).drop_last() =~= embeds@.take(i as int));
            assert(out@ =~= old(out)@ + embeds_json(embeds@.take(i + 1)));
        }
        i = i + 1;
    }
    proof {
        assert(embeds@.take(embeds@.len() as int) =~= embeds@);
    }
}

/// A link-style button.
pub open spec fn button_json(b: UrlButtonComponent) -> Seq<char> {
    "{\"type\":"@ + dec_rep(b.kind as nat) + ",\"style\":"@ + dec_rep(b.style as nat)
        + ",\"label\":"@ + json_string(b.label@) + ",\"url\":"@ + json_string(b.url@) + "}"@
}

fn write_button(out: &mut String, b: &UrlButtonComponent)
    ensures
        final(out)@ == old(out)@ + button_json(*b),
{
    out.append("{\"type\":");
    write_u32(out, b.kind as u32);
    out.append(",\"style\":");
    write_u32(out, b.style as u32);
    out.append(",\"label\":");
    write_json_string(out, b.label.as_str());
    out.append(",\"url\":");
    write_json_string(out, b.url.as_str());
    out.append("}");
    proof {
        assert(out@ =~= old(out)@ + button_json(*b));
    }
}

/// The comma-separated members of a button array, in order.
pub open spec fn buttons_json(s: Seq<UrlButtonComponent>) -> Seq<char>
    decreases s.len(),
{
    if s.len() == 0 {
        Seq::empty()
    } else if s.len() == 1 {
        button_json(s[0])
    } else {
        buttons_json(s.drop_last()) + seq![','] + button_json(s.last())
    }
}

fn write_buttons(out: &mut String, buttons: &Vec<UrlButtonComponent>)
    ensures
        final(out)@ == old(out)@ + buttons_json(buttons@),
{
    let mut i: usize = 0;
    while i < buttons.len()
        invariant
            i <= buttons@.len(),
            out@ == old(out)@ + buttons_json(buttons@.take(i as int)),
        decreases buttons@.len() - i,
    {
        if i > 0 {
            out.push(',');
        }
        write_button(out, &buttons[i]);
        proof {
            assert(buttons@.take(i + 1).drop_last() =~= buttons@.take(i as int));
            assert(out@ =~= old(out)@ + buttons_json(buttons@.take(i + 1)));
        }
        i = i + 1;
    }
    proof {
        assert(buttons@.take(buttons@.len() as int) =~= buttons@);
    }
}

/// One row of link elements.
pub open spec fn action_row_json(r: ActionRow) -> Seq<char> {
    "{\"type\":"@ + dec_rep(r.kind as nat) + ",\"components\":["@ + buttons_json(r.components@)
        + "]}"@
}

fn write_action_row(out: &mut String, r: &ActionRow)
    ensures
        final(out)@ == old(out)@ + action_row_json(*r),
{
    out.append("{\"type\":");
    write_u32(out, r.kind as u32);
    out.append(",\"components\":[");
    write_buttons(out, &r.components);
    out.append("]}");
    proof {
        assert(out@ =~= old(out)@ + action_row_json(*r));
    }
}

/// The comma-separated members of the component array, in order.
pub open spec fn rows_json(s: Seq<ActionRow>) -> Seq<char>
    decreases s.len(),
{
    if s.len() == 0 {
        Seq::empty()
    } else if s.len() == 1 {
        action_row_json(s[0])
    } else {
        rows_json(s.drop_last()) + seq![','] + action_row_json(s.last())
    }
}

fn write_rows(out: &mut String, rows: &Vec<ActionRow>)
    ensures
        final(out)@ == old(out)@ + rows_json(rows@),
{
    let mut i: usize = 0;
    while i < rows.len()
        invariant
            i <= rows@.len(),
            out@ == old(out)@ + rows_json(rows@.take(i as int)),
        decreases rows@.len() - i,
    {
        if i > 0 {
            out.push(',');
        }
        write_action_row(out, &rows[i]);
        proof {
            assert(rows@.take(i + 1).drop_last() =~= rows@.take(i as int));
            assert(out@ =~= old(out)@ + rows_json(rows@.take(i + 1)));
        }
        i = i + 1;
    }
    proof {
        assert(rows@.take(rows@.len() as int) =~= rows@);
    }
}

/// The follow-up envelope for one message: content, display blocks and
/// component rows.
pub open spec fn message_json(m: MessageData) -> Seq<char> {
    "{\"content\":"@ + json_string(m.content@) + ",\"embeds\":["@ + embeds_json(m.embeds@)
        + "],\"components\":["@ + rows_json(m.components@) + "]}"@
}

/// Serializes one follow-up message to the platform's envelope format.
pub fn message_body(m: &MessageData) -> (r: String)
    ensures
        r@ == message_json(*m),
{
    let mut out = String::new();
    out.append("{\"content\":");
    write_json_string(&mut out, m.content.as_str());
    out.append(",\"embeds\":[");
    write_embeds(&mut out, &m.embeds);
    out.append("],\"components\":[");
    write_rows(&mut out, &m.components);
    out.append("]}");
    proof {
        assert(out@ =~= message_json(*m));
    }
    out
}

/// The comma-separated wire values of an integration-type list, in order.
pub open spec fn integration_types_json(s: Seq<IntegrationType>) -> Seq<char>
    decreases s.len(),
{
    if s.len() == 0 {
        Seq::empty()
    } else if s.len() == 1 {
        dec_rep(s[0].raw_spec() as nat)
    } else {
        integration_types_json(s.drop_last()) + seq![','] + dec_rep(s.last().raw_spec() as nat)
    }
}

fn write_integration_types(out: &mut String, kinds: &Vec<IntegrationType>)
    ensures
        final(out)@ == old(out)@ + integration_types_json(kinds@),
{
    let mut i: usize = 0;
    while i < kinds.len()
        invariant
            i <= kinds@.len(),
            out@ == old(out)@ + integration_types_json(kinds@.take(i as int)),
        decreases kinds@.len() - i,
    {
        if i > 0 {
            out.push(',');
        }
        write_u32(out, kinds[i].raw() as u32);
        proof {
            assert(kinds@.take(i + 1).drop_last() =~= kinds@.take(i as int));
            assert(out@ =~= old(out)@ + integration_types_json(kinds@.take(i + 1)));
        }
        i = i + 1;
    }
    proof {
        assert(kinds@.take(kinds@.len() as int) =~= kinds@);
    }
}

/// The comma-separated wire values of a context list, in order.
pub open spec fn contexts_json(s: Seq<InteractionContext>) -> Seq<char>
    decreases s.len(),
{
    if s.len() == 0 {
        Seq::empty()
    } else if s.len() == 1 {
        dec_rep(s[0].raw_spec() as nat)
    } else {
        contexts_json(s.drop_last()) + seq![','] + dec_rep(s.last().raw_spec() as nat)
    }
}

fn write_contexts(out: &mut String, contexts: &Vec<InteractionContext>)
    ensures
        final(out)@ == old(out)@ + contexts_json(contexts@),
{
    let mut i: usize = 0;
    while i < contexts.len()
        invariant
            i <= contexts@.len(),
            out@ == old(out)@ + contexts_json(contexts@.take(i as int)),
        decreases contexts@.len() - i,
    {
        if i > 0 {
            out.push(',');
        }
        write_u32(out, contexts[i].raw() as u32);
        proof {
            assert(contexts@.take(i + 1).drop_last() =~= contexts@.take(i as int));
            assert(out@ =~= old(out)@ + contexts_json(contexts@.take(i + 1)));
        }
        i = i + 1;
    }
    proof {
        assert(contexts@.take(contexts@.len() as int) =~= contexts@);
    }
}

/// One command descriptor as sent to the platform at provisioning time.
pub open spec fn command_json(c: CommandData) -> Seq<char> {
    "{\"name\":"@ + json_string(c.name@) + ",\"description\":"@ + json_string(c.description@)
        + ",\"integration_types\":["@ + integration_types_json(c.integration_types@)
        + "],\"contexts\":["@ + contexts_json(c.contexts@) + "]}"@
}

impl CommandData {
    /// Serializes one command descriptor.
    pub fn to_body(&self) -> (r: String)
        ensures
            r@ == command_json(*self),
    {
        let mut out = String::new();
        out.append("{\"name\":");
        write_json_string(&mut out, self.name.as_str());
        out.append(",\"description\":");
        write_json_string(&mut out, self.description.as_str());
        out.append(",\"integration_types\":[");
        write_integration_types(&mut out, &self.integration_types);
        out.append("],\"contexts\":[");
        write_contexts(&mut out, &self.contexts);
        out.append("]}");
        proof {
            assert(out@ =~= command_json(*self));
        }
        out
    }
}

/// The comma-separated members of the command array, in order.
pub open spec fn commands_json(s: Seq<CommandData>) -> Seq<char>
    decreases s.len(),
{
    if s.len() == 0 {
        Seq::empty()
    } else if s.len() == 1 {
        command_json(s[0])
    } else {
        commands_json(s.drop_last()) + seq![','] + command_json(s.last())
    }
}

/// Serializes the whole command list as the JSON array sent to the platform
/// at provisioning time.
pub fn commands_body(commands: &Vec<CommandData>) -> (r: String)
    ensures
        r@ == seq!['['] + commands_json(commands@) + seq![']'],
{
    let mut out = String::new();
    out.push('[');
    let mut i: usize = 0;
    while i < commands.len()
        invariant
            i <= commands@.len(),
            out@ == seq!['['] + commands_json(commands@.take(i as int)),
        decreases commands@.len() - i,
    {
        if i > 0 {
            out.push(',');
        }
        let body = commands[i].to_body();
        out.append(body.as_str());
        proof {
            assert(commands@.take(i + 1).drop_last() =~= commands@.take(i as int));
            assert(out@ =~= seq!['['] + commands_json(commands@.take(i + 1)));
        }
        i = i + 1;
    }
    proof {
        assert(commands@.take(commands@.len() as int) =~= commands@);
    }
    out.push(']');
    proof {
        assert(out@ =~= seq!['['] + commands_json(commands@) + seq![']']);
    }
    out
}

} // verus!

