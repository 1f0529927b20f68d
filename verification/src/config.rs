//! The configuration-tree walker.
//!
//! The vendor exposes settings and health telemetry as a hierarchical tree of
//! typed nodes, addressed by slash-delimited paths.  The shell resolves a
//! path with the vendor's find primitive and then reads the node (and, for
//! groups, its siblings via the first/next iteration protocol), recording
//! every answer into a [`RawNode`] transcript; [`parse_item`] classifies and
//! extracts that transcript into the normalized [`ConfigItem`] view.  The
//! classification rules live here and are verified: type-tag dispatch, the
//! reclassification of a bool whose integer extraction fails with
//! invalid-config as a stateless trigger ("button"), the semicolon-delimited
//! option-label list of an enumeration, depth-first group traversal, and
//! last-write-wins on sibling name collisions.

use vstd::prelude::*;

use crate::status::{err_of, err_spec, Error};
use crate::wide::{decode_wide, decode_wide_all, wide_lossy};

verus! {

/// Vendor type tag of a group node.
pub const CONFIG_TYPE_GROUP: u32 = 1;
/// Vendor type tag of an opaque binary node.
pub const CONFIG_TYPE_BLOB: u32 = 2;
/// Vendor type tag of a numeric node.
pub const CONFIG_TYPE_NUMBER: u32 = 3;
/// Vendor type tag of a boolean node.
pub const CONFIG_TYPE_BOOL: u32 = 4;
/// Vendor type tag of an enumeration node.
pub const CONFIG_TYPE_ENUM: u32 = 5;
/// Vendor type tag of a text node.
pub const CONFIG_TYPE_STRING: u32 = 6;

/// The node kinds a vendor type tag can stand for.
#[derive(Clone, Copy, Debug, PartialEq, Eq, Structural)]
pub enum ConfigType {
    Other,
    Group,
    Blob,
    Number,
    Bool,
    Enum,
    String,
}

impl ConfigType {
    /// Decodes a vendor type tag; every tag outside the documented set is
    /// `Other`.
    pub fn from_code(code: u32) -> (r: ConfigType)
        ensures
            code == CONFIG_TYPE_GROUP ==> r == ConfigType::Group,
            code == CONFIG_TYPE_BLOB ==> r == ConfigType::Blob,
            code == CONFIG_TYPE_NUMBER ==> r == ConfigType::Number,
            code == CONFIG_TYPE_BOOL ==> r == ConfigType::Bool,
            code == CONFIG_TYPE_ENUM ==> r == ConfigType::Enum,
            code == CONFIG_TYPE_STRING ==> r == ConfigType::String,
            code == 0 || code > 6 ==> r == ConfigType::Other,
    {
        if code == CONFIG_TYPE_GROUP {
            ConfigType::Group
        } else if code == CONFIG_TYPE_BLOB {
            ConfigType::Blob
        } else if code == CONFIG_TYPE_NUMBER {
            ConfigType::Number
        } else if code == CONFIG_TYPE_BOOL {
            ConfigType::Bool
        } else if code == CONFIG_TYPE_ENUM {
            ConfigType::Enum
        } else if code == CONFIG_TYPE_STRING {
            ConfigType::String
        } else {
            ConfigType::Other
        }
    }
}

/// Transcript of the vendor's answers for one configuration node.
///
/// The get-info call reported `name`, `type_code` and the `options` metadata
/// buffer; the get-integer call answered `int_code` after writing
/// `int_value`; the get-float call answered `float_code` after writing the
/// float whose bit pattern is `float_bits`.  For a group, `children` are the
/// transcripts the first/next sibling iteration produced in order, and
/// `end_code` is the answer that ended it: the code the first call gave when
/// there is no child at all, else the code that stopped the next calls
/// (normally "empty").  The code that ends an iteration is never the success
/// code; for nodes where no iteration happens the field conventionally holds
/// the "empty" code.
#[derive(Debug)]
pub struct RawNode {
    pub name: Vec<u32>,
    pub type_code: u32,
    pub options: Vec<u32>,
    pub int_code: u32,
    pub int_value: i64,
    pub float_code: u32,
    pub float_bits: u64,
    pub children: Vec<RawNode>,
    pub end_code: u32,
}

/// A well-formed transcript: no sibling iteration ends with the success code,
/// here or anywhere below.
pub open spec fn node_wf(raw: RawNode) -> bool
    decreases raw,
{
    raw.end_code != 0 && forest_wf(raw.children@)
}

/// Every transcript of the sequence is well-formed.
pub open spec fn forest_wf(s: Seq<RawNode>) -> bool
    decreases s,
{
    s.len() == 0 || (node_wf(s.last()) && forest_wf(s.drop_last()))
}

/// Normalized view of one configuration node: a tagged variant with one
/// constructor per observed type code plus an explicit fallback for unknown
/// tags.  Numbers carry the IEEE-754 bit pattern of the vendor's 64-bit
/// float.  A group maps each child name to the child's item; collisions among
/// sibling names resolve last-write-wins.
#[derive(Debug, PartialEq)]
pub enum ConfigItem {
    Blob,
    Bool(bool),
    Button,
    Enum(i64, Vec<String>),
    Group(Vec<(String, ConfigItem)>),
    Number(u64),
    Other,
    String(String),
}

/// Mathematical view of a [`ConfigItem`].
pub enum ItemV {
    Blob,
    Bool(bool),
    Button,
    Enum(i64, Seq<Seq<char>>),
    Group(Map<Seq<char>, ItemV>),
    Number(u64),
    Other,
    String(Seq<char>),
}

/// The mathematical value of an item: group entries collapse into the
/// name-to-item mapping, later entries shadowing earlier ones.
pub open spec fn item_view(c: ConfigItem) -> ItemV
    decreases c,
{
    match c {
        ConfigItem::Blob => ItemV::Blob,
        ConfigItem::Bool(b) => ItemV::Bool(b),
        ConfigItem::Button => ItemV::Button,
        ConfigItem::Enum(sel, labels) => ItemV::Enum(
            sel,
            labels@.map_values(|l: String| l@),
        ),
        ConfigItem::Group(entries) => ItemV::Group(group_view(entries@)),
        ConfigItem::Number(bits) => ItemV::Number(bits),
        ConfigItem::Other => ItemV::Other,
        ConfigItem::String(s) => ItemV::String(s@),
    }
}

/// The name-to-item mapping of a group entry list: entries apply in order,
/// so on a name collision the last write wins.
pub open spec fn group_view(s: Seq<(String, ConfigItem)>) -> Map<Seq<char>, ItemV>
    decreases s,
{
    if s.len() == 0 {
        Map::empty()
    } else {
        group_view(s.drop_last()).insert(s.last().0@, item_view(s.last().1))
    }
}

/// `group_view` looks through unmatched entries: dropping a suffix in which
/// the name never occurs changes nothing about that name.
proof fn lemma_group_view_skip_unmatched(s: Seq<(String, ConfigItem)>, name: Seq<char>, j: int)
    requires
        0 <= j <= s.len(),
        forall|k: int| j <= k < s.len() ==> s[k].0@ != name,
    ensures
        group_view(s).contains_key(name) <==> group_view(s.take(j)).contains_key(name),
        group_view(s).contains_key(name) ==> group_view(s)[name] == group_view(s.take(j))[name],
    decreases s.len() - j,
{
    if j < s.len() {
        lemma_group_view_skip_unmatched(s, name, j + 1);
        assert(s.take(j + 1).drop_last() =~= s.take(j));
        assert(s.take(j + 1).last() == s[j]);
    } else {
        assert(s.take(j) =~= s);
    }
}

impl ConfigItem {
    /// Looks a child of a group up by name.  Name collisions among siblings
    /// resolve last-write-wins, so the match closest to the end of the entry
    /// list is the one the group's mapping holds.  Yields nothing for a
    /// missing name, and on anything that is not a group.
    pub fn group_get<'a>(&'a self, name: &String) -> (r: Option<&'a ConfigItem>)
        ensures
            (match *self {
                ConfigItem::Group(entries) => {
                    &&& (r matches Some(c) ==> group_view(entries@).contains_key(name@)
                        && item_view(*c) == group_view(entries@)[name@])
                    &&& (r is None ==> !group_view(entries@).contains_key(name@))
                },
                _ => r is None,
            }),
    {
        match self {
            ConfigItem::Group(entries) => {
                let ghost s = entries@;
                let mut j = entries.len();
                loop
                    invariant
                        j <= s.len(),
                        entries@ == s,
                        forall|k: int| j <= k < s.len() ==> s[k].0@ != name@,
                    ensures
                        j <= s.len(),
                        forall|k: int| j <= k < s.len() ==> s[k].0@ != name@,
                        j > 0 ==> s[j - 1].0@ == name@,
                    decreases j,
                {
                    if j == 0 {
                        break ;
                    }
                    if entries[j - 1].0 == *name {
                        break ;
                    }
                    j = j - 1;
                }
                if j == 0 {
                    proof {
                        lemma_group_view_skip_unmatched(s, name@, 0);
                        assert(s.take(0) =~= Seq::<(String, ConfigItem)>::empty());
                    }
                    None
                } else {
                    proof {
                        lemma_group_view_skip_unmatched(s, name@, j as int);
                        assert(s.take(j as int).drop_last() =~= s.take(j as int - 1));
                        assert(s.take(j as int).last() == s[j as int - 1]);
                    }
                    let entry = &entries[j - 1];
                    Some(&entry.1)
                }
            },
            _ => None,
        }
    }
}

/// The prefix of a buffer before its first nul value.
pub open spec fn nul_trunc(s: Seq<u32>) -> Seq<u32>
    decreases s.len(),
{
    if s.len() == 0 {
        s
    } else if s[0] == 0 {
        Seq::empty()
    } else {
        seq![s[0]] + nul_trunc(s.drop_first())
    }
}

/// A buffer split at every semicolon (code unit 59): always at least one
/// piece, the empty buffer yielding one empty piece.
pub open spec fn split_sep(s: Seq<u32>) -> Seq<Seq<u32>>
    decreases s.len(),
{
    if s.len() == 0 {
        seq![Seq::empty()]
    } else if s[0] == 59 {
        seq![Seq::<u32>::empty()] + split_sep(s.drop_first())
    } else {
        let rest = split_sep(s.drop_first());
        seq![seq![s[0]] + rest[0]] + rest.drop_first()
    }
}

/// The option labels carried in an enumeration node's metadata buffer: the
/// buffer up to its first nul, split at semicolons, each piece decoded.
pub open spec fn options_split(s: Seq<u32>) -> Seq<Seq<char>> {
    split_sep(nul_trunc(s)).map_values(|p: Seq<u32>| wide_lossy(p))
}

/// What walking a group's children yields: each child parsed depth-first in
/// order, the first failure aborting the walk, successes folding into the
/// name-to-item mapping with last-write-wins.
pub open spec fn group_spec(s: Seq<RawNode>) -> Result<Map<Seq<char>, ItemV>, Error>
    decreases s,
{
    if s.len() == 0 {
        Ok(Map::empty())
    } else {
        match group_spec(s.drop_last()) {
            Ok(m) => match parse_spec(s.last()) {
                Ok(p) => Ok(m.insert(p.0, p.1)),
                Err(e) => Err(e),
            },
            Err(e) => Err(e),
        }
    }
}

/// What classifying a node transcript yields: the node's decoded name and
/// its normalized item, or the first error of the walk.
///
/// - A bool whose integer extraction failed with invalid-config is a
///   stateless trigger (button), not an error.
/// - An enumeration's selected index comes from the integer extraction and
///   its labels from the semicolon-delimited metadata buffer.
/// - A group whose sibling iteration stopped on "empty" is the mapping of
///   the children walked so far — the empty mapping when the very first
///   child call already answered "empty".  An iteration that ended with any
///   other code fails the group with that code's error.
pub open spec fn parse_spec(raw: RawNode) -> Result<(Seq<char>, ItemV), Error>
    decreases raw,
{
    let name = wide_lossy(raw.name@);
    if raw.type_code == CONFIG_TYPE_BLOB {
        Ok((name, ItemV::Blob))
    } else if raw.type_code == CONFIG_TYPE_BOOL {
        if raw.int_code == 0 {
            Ok((name, ItemV::Bool(raw.int_value > 0)))
        } else if err_spec(raw.int_code) == Error::ErrorInvalidConfig {
            Ok((name, ItemV::Button))
        } else {
            Err(err_spec(raw.int_code))
        }
    } else if raw.type_code == CONFIG_TYPE_ENUM {
        if raw.int_code == 0 {
            Ok((name, ItemV::Enum(raw.int_value, options_split(raw.options@))))
        } else {
            Err(err_spec(raw.int_code))
        }
    } else if raw.type_code == CONFIG_TYPE_NUMBER {
        if raw.float_code == 0 {
            Ok((name, ItemV::Number(raw.float_bits)))
        } else {
            Err(err_spec(raw.float_code))
        }
    } else if raw.type_code == CONFIG_TYPE_STRING {
        Ok((name, ItemV::String(wide_lossy(raw.options@))))
    } else if raw.type_code == CONFIG_TYPE_GROUP {
        match group_spec(raw.children@) {
            Ok(m) => if raw.end_code == 1 {
                Ok((name, ItemV::Group(m)))
            } else {
                Err(err_spec(raw.end_code))
            },
            Err(e) => Err(e),
        }
    } else {
        Ok((name, ItemV::Other))
    }
}

/// `nul_trunc` is the prefix up to the first nul: if everything before `i` is
/// non-nul and `i` is the buffer's end or a nul, the truncation is `take(i)`.
proof fn lemma_nul_trunc_prefix(s: Seq<u32>, i: int)
    requires
        0 <= i <= s.len(),
        forall|j: int| 0 <= j < i ==> s[j] != 0,
        i < s.len() ==> s[i] == 0,
    ensures
        nul_trunc(s) == s.take(i),
    decreases i,
{
    if i == 0 {
        assert(nul_trunc(s) =~= s.take(0));
    } else {
        lemma_nul_trunc_prefix(s.drop_first(), i - 1);
        assert(seq![s[0]] + s.drop_first().take(i - 1) =~= s.take(i));
    }
}

/// Every transcript of a well-formed sequence is well-formed.
proof fn lemma_forest_wf_at(s: Seq<RawNode>, i: int)
    requires
        forest_wf(s),
        0 <= i < s.len(),
    ensures
        node_wf(s[i]),
    decreases s.len(),
{
    if i < s.len() - 1 {
        lemma_forest_wf_at(s.drop_last(), i);
    }
}

/// Splitting yields at least one piece.
proof fn lemma_split_sep_len(s: Seq<u32>)
    ensures
        split_sep(s).len() >= 1,
    decreases s.len(),
{
    if s.len() > 0 {
        lemma_split_sep_len(s.drop_first());
    }
}

/// The prefix of a buffer before its first nul, computed.
fn nul_truncate(s: &Vec<u32>) -> (r: Vec<u32>)
    ensures
        r@ == nul_trunc(s@),
{
    let n = s.len();
    let mut out: Vec<u32> = Vec::new();
    let mut i: usize = 0;
    loop
        invariant
            n == s@.len(),
            i <= n,
            out@ == s@.take(i as int),
            forall|j: int| 0 <= j < i ==> s@[j] != 0,
        ensures
            i <= n,
            out@ == s@.take(i as int),
            forall|j: int| 0 <= j < i ==> s@[j] != 0,
            i < n ==> s@[i as int] == 0,
        decreases n - i,
    {
        if i == n {
            break ;
        }
        let c = s[i];
        if c == 0 {
            break ;
        }
        out.push(c);
        proof {
            assert(out@ =~= s@.take(i as int + 1));
        }
        i = i + 1;
    }
    proof {
        lemma_nul_trunc_prefix(s@, i as int);
    }
    out
}

/// The semicolon-separated pieces of a metadata buffer, truncated at its
/// first nul.  The pieces are assembled back to front, so that every step is
/// one unfolding of [`split_sep`].
fn split_options(s: &Vec<u32>) -> (pieces: Vec<Vec<u32>>)
    ensures
        pieces@.map_values(|p: Vec<u32>| p@) == split_sep(nul_trunc(s@)),
        pieces@.len() >= 1,
{
    let t = nul_truncate(s);
    let ghost tv = t@;
    let n = t.len();
    let mut pieces: Vec<Vec<u32>> = Vec::new();
    pieces.push(Vec::new());
    let mut i: usize = n;
    proof {
        assert(tv.skip(n as int) =~= Seq::<u32>::empty());
        assert(pieces@.map_values(|p: Vec<u32>| p@) =~~= split_sep(tv.skip(n as int)));
    }
    while i > 0
        invariant
            n == tv.len(),
            t@ == tv,
            i <= n,
            pieces@.len() >= 1,
            pieces@.map_values(|p: Vec<u32>| p@) == split_sep(tv.skip(i as int)),
        decreases i,
    {
        i = i - 1;
        let ghost suf = tv.skip(i as int);
        proof {
            assert(suf[0] == tv[i as int]);
            assert(suf.drop_first() =~= tv.skip(i as int + 1));
        }
        let c = t[i];
        if c == 59 {
            pieces.insert(0, Vec::new());
            proof {
                assert(pieces@.map_values(|p: Vec<u32>| p@) =~~= seq![Seq::<u32>::empty()]
                    + split_sep(tv.skip(i as int + 1)));
            }
        } else {
            let mut first = pieces.remove(0);
            first.insert(0, c);
            pieces.insert(0, first);
            proof {
                let rest = split_sep(tv.skip(i as int + 1));
                assert(pieces@.map_values(|p: Vec<u32>| p@) =~~= seq![seq![suf[0]] + rest[0]]
                    + rest.drop_first());
            }
        }
    }
    proof {
        assert(tv.skip(0) =~= tv);
    }
    pieces
}

/// If the walk up to child `i` succeeded but child `i` itself fails, the
/// whole group fails with that child's error (later siblings are never
/// consulted).
proof fn lemma_group_spec_err(s: Seq<RawNode>, i: int, e: Error)
    requires
        0 <= i < s.len(),
        group_spec(s.take(i)) is Ok,
        parse_spec(s[i]) == Err::<(Seq<char>, ItemV), Error>(e),
    ensures
        group_spec(s) == Err::<Map<Seq<char>, ItemV>, Error>(e),
    decreases s.len(),
{
    if i == s.len() - 1 {
        assert(s.drop_last() =~= s.take(i));
    } else {
        assert(s.drop_last().take(i) =~= s.take(i));
        lemma_group_spec_err(s.drop_last(), i, e);
    }
}

/// Classifies and extracts one node transcript, depth first.
///
/// The result is the node's decoded name and its normalized item, exactly as
/// [`parse_spec`] states: blobs and unknown tags classify immediately;
/// numbers, bools and enumerations surface their extraction error — except
/// that a bool whose integer extraction failed with invalid-config becomes a
/// button; a group collects all siblings before returning, aborting on the
/// first failed child — a sibling iteration that stopped on "empty" closes
/// the group normally (an empty group when even the first child call
/// answered "empty"), while one that ended with any other code fails it.
pub fn parse_item(raw: &RawNode) -> (r: Result<(String, ConfigItem), Error>)
    requires
        node_wf(*raw),
    ensures
        r matches Ok(p) ==> parse_spec(*raw) == Ok::<(Seq<char>, ItemV), Error>(
            (p.0@, item_view(p.1)),
        ),
        r matches Err(e) ==> parse_spec(*raw) == Err::<(Seq<char>, ItemV), Error>(e),
    decreases *raw,
{
    let name = decode_wide(&raw.name);
    if raw.type_code == CONFIG_TYPE_BLOB {
        Ok((name, ConfigItem::Blob))
    } else if raw.type_code == CONFIG_TYPE_BOOL {
        if raw.int_code == 0 {
            Ok((name, ConfigItem::Bool(raw.int_value > 0)))
        } else {
            let e = err_of(raw.int_code);
            if e == Error::ErrorInvalidConfig {
                Ok((name, ConfigItem::Button))
            } else {
                Err(e)
            }
        }
    } else if raw.type_code == CONFIG_TYPE_ENUM {
        let pieces = split_options(&raw.options);
        let labels = decode_wide_all(&pieces);
        if raw.int_code == 0 {
            proof {
                assert(labels@.map_values(|l: String| l@) =~= options_split(raw.options@));
            }
            Ok((name, ConfigItem::Enum(raw.int_value, labels)))
        } else {
            Err(err_of(raw.int_code))
        }
    } else if raw.type_code == CONFIG_TYPE_NUMBER {
        if raw.float_code == 0 {
            Ok((name, ConfigItem::Number(raw.float_bits)))
        } else {
            Err(err_of(raw.float_code))
        }
    } else if raw.type_code == CONFIG_TYPE_STRING {
        Ok((name, ConfigItem::String(decode_wide(&raw.options))))
    } else if raw.type_code == CONFIG_TYPE_GROUP {
        let n = raw.children.len();
        let mut entries: Vec<(String, ConfigItem)> = Vec::new();
        let mut i: usize = 0;
        proof {
            assert(raw.children@.take(0) =~= Seq::<RawNode>::empty());
        }
        while i < n
            invariant
                node_wf(*raw),
                raw.type_code == CONFIG_TYPE_GROUP,
                n == raw.children@.len(),
                i <= n,
                group_spec(raw.children@.take(i as int)) == Ok::<Map<Seq<char>, ItemV>, Error>(
                    group_view(entries@),
                ),
            decreases n - i,
        {
            proof {
                lemma_forest_wf_at(raw.children@, i as int);
                assert(decreases_to!(*raw => raw.children@[i as int]));
            }
            let ghost entries0 = entries@;
            match parse_item(&raw.children[i]) {
                Ok(p) => {
                    let ghost pv = (p.0@, item_view(p.1));
                    entries.push(p);
                    proof {
                        let pre = raw.children@.take(i as int);
                        let post = raw.children@.take(i as int + 1);
                        assert(post.drop_last() =~= pre);
                        assert(post.last() == raw.children@[i as int]);
                        assert(entries@.drop_last() =~= entries0);
                    }
                },
                Err(e) => {
                    proof {
                        lemma_group_spec_err(raw.children@, i as int, e);
                    }
                    return Err(e);
                },
            }
            i = i + 1;
        }
        proof {
            assert(raw.children@.take(n as int) =~= raw.children@);
        }
        if raw.end_code == 1 {
            Ok((name, ConfigItem::Group(entries)))
        } else {
            Err(err_of(raw.end_code))
        }
    } else {
        Ok((name, ConfigItem::Other))
    }
}

/// The outcome of the three-step vendor chain behind a configuration write
/// or lookup — resolve the tree root, find the node at the path, then apply
/// the node operation (the string, float or integer setter, or the get-info
/// read): the first failing step decides, later steps are never reached.
pub fn config_chain_outcome(root_code: u32, find_code: u32, op_code: u32) -> (r: Result<
    (),
    Error,
>)
    ensures
        r is Ok <==> root_code == 0 && find_code == 0 && op_code == 0,
        r matches Err(e) ==> e == err_spec(
            if root_code != 0 {
                root_code
            } else if find_code != 0 {
                find_code
            } else {
                op_code
            },
        ),
{
    if root_code != 0 {
        Err(err_of(root_code))
    } else if find_code != 0 {
        Err(err_of(find_code))
    } else if op_code != 0 {
        Err(err_of(op_code))
    } else {
        Ok(())
    }
}

/// A bool-tagged node whose integer extraction fails with invalid-config is
/// classified as a button: the walk yields its name and the button item, and
/// never an error.
pub proof fn lemma_bool_invalid_config_is_button(raw: RawNode)
    requires
        raw.type_code == CONFIG_TYPE_BOOL,
        raw.int_code != 0,
        err_spec(raw.int_code) == Error::ErrorInvalidConfig,
    ensures
        parse_spec(raw) == Ok::<(Seq<char>, ItemV), Error>((wide_lossy(raw.name@), ItemV::Button)),
{
}

} // verus!
