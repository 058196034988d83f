use vstd::prelude::*;

use crate::decode::ByteOrder;
use crate::decode::spec_decode;
use crate::decode::spec_format_len;
use crate::decode::to_exif_value;
use crate::table::ExifEntries;
use crate::value::ExifValueView;

verus! {

/// One raw directory entry as the external parser hands it over: the tag
/// name the parser resolved for it — absent when it knows none — its declared
/// format code, and its raw byte span, absent when the parser found no data
/// behind the entry.
pub struct ExifEntry {
    pub name: Option<String>,
    pub format: u16,
    pub data: Option<Vec<u8>>,
}

/// The mathematical shape of a raw entry.
pub struct EntryView {
    pub name: Option<Seq<char>>,
    pub format: u16,
    pub data: Option<Seq<u8>>,
}

impl View for ExifEntry {
    type V = EntryView;

    open spec fn view(&self) -> EntryView {
        EntryView {
            name: match self.name {
                Some(n) => Some(n@),
                None => None,
            },
            format: self.format,
            data: match self.data {
                Some(b) => Some(b@),
                None => None,
            },
        }
    }
}

/// One directory-worth of entries, with the identifier of the directory they
/// sit in: the same numeric tag means different fields in different
/// directories, so the identifier governs how the parser resolved the names.
pub struct ExifContent {
    pub ifd: i32,
    pub entries: Vec<ExifEntry>,
}

/// The mathematical shape of one content.
pub struct ContentView {
    pub ifd: i32,
    pub entries: Seq<EntryView>,
}

impl View for ExifContent {
    type V = ContentView;

    open spec fn view(&self) -> ContentView {
        ContentView { ifd: self.ifd, entries: self.entries@.map_values(|e: ExifEntry| e@) }
    }
}

/// An entry's data span, when present and non-empty, holds at least the bytes
/// its declared format reads.
pub open spec fn entry_wf(e: EntryView) -> bool {
    e.data matches Some(b) ==> (b.len() > 0 ==> b.len() >= spec_format_len(e.format))
}

/// Every entry of the content is well-formed.
pub open spec fn content_wf(c: ContentView) -> bool {
    forall|i: int| 0 <= i < c.entries.len() ==> entry_wf(#[trigger] c.entries[i])
}

/// Every content of the enumeration is well-formed.
pub open spec fn contents_wf(cs: Seq<ContentView>) -> bool {
    forall|i: int| 0 <= i < cs.len() ==> content_wf(#[trigger] cs[i])
}

/// The contents of an enumeration, seen mathematically.
pub open spec fn contents_view(s: Seq<ExifContent>) -> Seq<ContentView> {
    s.map_values(|c: ExifContent| c@)
}

/// What one entry does to the table under construction: a named entry inserts
/// its decoded value under its name — overwriting any earlier value, so the
/// last write wins — and an entry whose name the parser could not resolve is
/// skipped without a trace.
pub open spec fn spec_read_entry(
    m: Map<Seq<char>, ExifValueView>,
    e: EntryView,
    order: ByteOrder,
) -> Map<Seq<char>, ExifValueView> {
    match e.name {
        Some(n) => m.insert(n, spec_decode(e.format, e.data, order)),
        None => m,
    }
}

/// The table after a run of entries, processed in enumeration order.
pub open spec fn spec_read_entries(
    m: Map<Seq<char>, ExifValueView>,
    entries: Seq<EntryView>,
    order: ByteOrder,
) -> Map<Seq<char>, ExifValueView>
    decreases entries.len(),
{
    if entries.len() == 0 {
        m
    } else {
        spec_read_entry(spec_read_entries(m, entries.drop_last(), order), entries.last(), order)
    }
}

/// The table after a run of contents, each contributing its entries in turn.
pub open spec fn spec_read_contents(
    m: Map<Seq<char>, ExifValueView>,
    cs: Seq<ContentView>,
    order: ByteOrder,
) -> Map<Seq<char>, ExifValueView>
    decreases cs.len(),
{
    if cs.len() == 0 {
        m
    } else {
        spec_read_entries(spec_read_contents(m, cs.drop_last(), order), cs.last().entries, order)
    }
}

/// The finished table of one whole enumeration: every content's entries,
/// decoded under the one byte order, folded into an initially empty table.
pub open spec fn spec_table(order: ByteOrder, cs: Seq<ContentView>) -> Map<
    Seq<char>,
    ExifValueView,
> {
    spec_read_contents(Map::empty(), cs, order)
}

/// The context one decode carries while the directories are walked: the byte
/// order fixed for the whole image, the identifier of the directory being
/// visited, and the table under construction.
pub struct ReadBody {
    pub byte_order: ByteOrder,
    pub ifd: i32,
    pub entries: ExifEntries,
}

impl ReadBody {
    /// A fresh context for one decode: the given byte order, the initial
    /// directory identifier, and an empty table.
    pub fn new(byte_order: ByteOrder) -> (r: ReadBody)
        ensures
            r.byte_order == byte_order,
            r.ifd == 0,
            r.entries.wf(),
            r.entries@ == Map::<Seq<char>, ExifValueView>::empty(),
    {
        ReadBody { byte_order, ifd: 0, entries: ExifEntries::new() }
    }
}

/// Processes one raw entry: resolves nothing itself — the name arrives
/// already looked up — but decodes the value under the context's byte order
/// and inserts it, while an unnamed entry contributes nothing.
pub fn read_exif_entry(body: &mut ReadBody, entry: &ExifEntry)
    requires
        old(body).entries.wf(),
        entry_wf(entry@),
    ensures
        final(body).entries.wf(),
        final(body).entries@ == spec_read_entry(
            old(body).entries@,
            entry@,
            old(body).byte_order,
        ),
        final(body).byte_order == old(body).byte_order,
        final(body).ifd == old(body).ifd,
{
    match &entry.name {
        Some(n) => {
            let key = n.clone();
            let value = to_exif_value(entry.format, &entry.data, body.byte_order);
            body.entries.insert(key, value);
        },
        None => {},
    }
}

/// Processes one content: records its directory identifier in the context —
/// before any of its entries, since name resolution depended on it — then
/// feeds every entry to [`read_exif_entry`] in enumeration order.
pub fn read_exif_content(body: &mut ReadBody, content: &ExifContent)
    requires
        old(body).entries.wf(),
        content_wf(content@),
    ensures
        final(body).entries.wf(),
        final(body).entries@ == spec_read_entries(
            old(body).entries@,
            content@.entries,
            old(body).byte_order,
        ),
        final(body).byte_order == old(body).byte_order,
        final(body).ifd == content@.ifd,
{
    body.ifd = content.ifd;
    let n = content.entries.len();
    let mut i: usize = 0;
    while i < n
        invariant
            i <= n,
            n == content.entries.len(),
            content_wf(content@),
            body.entries.wf(),
            body.byte_order == old(body).byte_order,
            body.ifd == content@.ifd,
            body.entries@ == spec_read_entries(
                old(body).entries@,
                content@.entries.take(i as int),
                old(body).byte_order,
            ),
        decreases n - i,
    {
        proof {
            assert(content@.entries[i as int] == content.entries@[i as int]@);
        }
        read_exif_entry(body, &content.entries[i]);
        proof {
            let taken = content@.entries.take(i + 1);
            assert(taken.drop_last() =~= content@.entries.take(i as int));
            assert(taken.last() == content@.entries[i as int]);
        }
        i += 1;
    }
    proof {
        assert(content@.entries.take(n as int) =~= content@.entries);
    }
}

/// Builds the whole table of one decode: walks every content the external
/// parser enumerated, in order, against a fresh context, and hands the
/// finished table back. The result is a function of the byte order and the
/// enumerated contents alone.
pub fn build_table(byte_order: ByteOrder, contents: &Vec<ExifContent>) -> (r: ExifEntries)
    requires
        contents_wf(contents_view(contents@)),
    ensures
        r.wf(),
        r@ == spec_table(byte_order, contents_view(contents@)),
{
    let mut body = ReadBody::new(byte_order);
    let n = contents.len();
    let mut i: usize = 0;
    while i < n
        invariant
            i <= n,
            n == contents.len(),
            contents_wf(contents_view(contents@)),
            body.entries.wf(),
            body.byte_order == byte_order,
            body.entries@ == spec_read_contents(
                Map::empty(),
                contents_view(contents@).take(i as int),
                byte_order,
            ),
        decreases n - i,
    {
        proof {
            assert(contents_view(contents@)[i as int] == contents@[i as int]@);
        }
        read_exif_content(&mut body, &contents[i]);
        proof {
            let taken = contents_view(contents@).take(i + 1);
            assert(taken.drop_last() =~= contents_view(contents@).take(i as int));
            assert(taken.last() == contents_view(contents@)[i as int]);
        }
        i += 1;
    }
    proof {
        assert(contents_view(contents@).take(n as int) =~= contents_view(contents@));
    }
    body.entries
}

/// Law: the finished table is a function of the byte order and the enumerated
/// contents alone, so decoding the same input twice yields tables with
/// identical key-value content.
pub proof fn lemma_table_deterministic(
    order: ByteOrder,
    cs: Seq<ContentView>,
    t1: Map<Seq<char>, ExifValueView>,
    t2: Map<Seq<char>, ExifValueView>,
)
    requires
        t1 == spec_table(order, cs),
        t2 == spec_table(order, cs),
    ensures
        t1 == t2,
{
}

/// Law: when a run of entries ends with one that resolves to a name, the
/// finished table holds that entry's decoded value under the name, whatever
/// any earlier entry — in this run or before it — put there: the last write
/// wins.
pub proof fn lemma_last_write_wins(
    m: Map<Seq<char>, ExifValueView>,
    entries: Seq<EntryView>,
    e: EntryView,
    n: Seq<char>,
    order: ByteOrder,
)
    requires
        e.name == Some(n),
    ensures
        spec_read_entries(m, entries.push(e), order).contains_key(n),
        spec_read_entries(m, entries.push(e), order)[n] == spec_decode(e.format, e.data, order),
{
    assert(entries.push(e).drop_last() =~= entries);
    assert(entries.push(e).last() == e);
}

/// Law: the same, at whole-table scale — when the last enumerated content
/// ends with an entry that resolves to a name, the finished table holds that
/// entry's decoded value under the name, whatever any earlier content put
/// there.
pub proof fn lemma_last_content_wins(
    cs: Seq<ContentView>,
    c: ContentView,
    e: EntryView,
    n: Seq<char>,
    order: ByteOrder,
)
    requires
        c.entries.len() > 0,
        c.entries.last() == e,
        e.name == Some(n),
    ensures
        spec_table(order, cs.push(c)).contains_key(n),
        spec_table(order, cs.push(c))[n] == spec_decode(e.format, e.data, order),
{
    assert(cs.push(c).drop_last() =~= cs);
    assert(cs.push(c).last() == c);
    assert(c.entries.drop_last().push(e) =~= c.entries);
    lemma_last_write_wins(
        spec_read_contents(Map::empty(), cs, order),
        c.entries.drop_last(),
        e,
        n,
        order,
    );
}

} // verus!
