use vstd::prelude::*;
use vstd::seq_lib::to_multiset_insert;
use vstd::string::StringExecFns;
use vstd::utf8::encode_utf8;

verus! {

/// Chooses and joins the schema scripts of a store.
pub struct Migrator;

/// `a` is not behind `b` in the order of a dictionary over bytes.
pub open spec fn bytes_le(a: Seq<u8>, b: Seq<u8>) -> bool
    decreases a.len(),
{
    if a.len() == 0 {
        true
    } else if b.len() == 0 {
        false
    } else if a[0] != b[0] {
        a[0] < b[0]
    } else {
        bytes_le(a.drop_first(), b.drop_first())
    }
}

/// The name `a` is not behind the name `b`: the order of their UTF-8 bytes.
pub open spec fn name_le(a: Seq<char>, b: Seq<char>) -> bool {
    bytes_le(encode_utf8(a), encode_utf8(b))
}

/// The bytes are a file name with the extension `sql`: they end in `.sql`,
/// and something stands before the dot.
pub open spec fn is_script_bytes(name: Seq<u8>) -> bool {
    &&& name.len() >= 5
    &&& name[name.len() - 4] == 0x2e
    &&& name[name.len() - 3] == 0x73
    &&& name[name.len() - 2] == 0x71
    &&& name[name.len() - 1] == 0x6c
}

/// The test that keeps the names of schema scripts.
pub open spec fn is_script_name() -> spec_fn(Seq<char>) -> bool {
    |name: Seq<char>| is_script_bytes(encode_utf8(name))
}

/// The names in a list of strings, in order.
pub open spec fn name_views(names: Seq<String>) -> Seq<Seq<char>> {
    names.map_values(|n: String| n@)
}

/// Each name is not behind the names after it.
pub open spec fn is_ordered(names: Seq<Seq<char>>) -> bool {
    forall|i: int, j: int| 0 <= i <= j < names.len() ==> name_le(names[i], names[j])
}

/// The scripts laid end to end, a line feed after each.
pub open spec fn batch_of(scripts: Seq<Seq<char>>) -> Seq<char>
    decreases scripts.len(),
{
    if scripts.len() == 0 {
        Seq::empty()
    } else {
        batch_of(scripts.drop_last()) + scripts.last() + seq!['\n']
    }
}

pub proof fn lemma_bytes_le_reflexive(a: Seq<u8>)
    ensures
        bytes_le(a, a),
    decreases a.len(),
{
    if a.len() > 0 {
        lemma_bytes_le_reflexive(a.drop_first());
    }
}

/// Of two byte strings one is not behind the other.
pub proof fn lemma_bytes_le_total(a: Seq<u8>, b: Seq<u8>)
    ensures
        bytes_le(a, b) || bytes_le(b, a),
    decreases a.len(),
{
    if a.len() > 0 && b.len() > 0 && a[0] == b[0] {
        lemma_bytes_le_total(a.drop_first(), b.drop_first());
    }
}

pub proof fn lemma_bytes_le_transitive(a: Seq<u8>, b: Seq<u8>, c: Seq<u8>)
    requires
        bytes_le(a, b),
        bytes_le(b, c),
    ensures
        bytes_le(a, c),
    decreases a.len(),
{
    if a.len() > 0 && b.len() > 0 && c.len() > 0 && a[0] == b[0] && b[0] == c[0] {
        lemma_bytes_le_transitive(a.drop_first(), b.drop_first(), c.drop_first());
    }
}

/// Compares two names by their bytes.
fn name_precedes(a: &str, b: &str) -> (r: bool)
    ensures
        r == name_le(a@, b@),
{
    let x = a.as_bytes();
    let y = b.as_bytes();
    let mut i: usize = 0;
    assert(x@.skip(0) =~= x@ && y@.skip(0) =~= y@);
    assert(x@ == encode_utf8(a@) && y@ == encode_utf8(b@));
    while i < x.len() && i < y.len()
        invariant
            i <= x.len(),
            i <= y.len(),
            name_le(a@, b@) == bytes_le(x@.skip(i as int), y@.skip(i as int)),
        decreases x.len() - i,
    {
        assert(x@.skip(i as int).drop_first() =~= x@.skip(i + 1));
        assert(y@.skip(i as int).drop_first() =~= y@.skip(i + 1));
        assert(x@.skip(i as int)[0] == x@[i as int] && y@.skip(i as int)[0] == y@[i as int]);
        if x[i] != y[i] {
            assert(bytes_le(x@.skip(i as int), y@.skip(i as int)) == (x@[i as int] < y@[i as int]));
            return x[i] < y[i];
        }
        i += 1;
    }
    assert(x@.skip(i as int).len() == x.len() - i && y@.skip(i as int).len() == y.len() - i);
    i >= x.len()
}

/// Tells whether a file name has the extension `sql`.
fn has_sql_extension(name: &str) -> (r: bool)
    ensures
        r == is_script_name()(name@),
{
    let bytes = name.as_bytes();
    let n = bytes.len();
    n >= 5 && bytes[n - 4] == 0x2e && bytes[n - 3] == 0x73 && bytes[n - 2] == 0x71 && bytes[n
        - 1] == 0x6c
}

impl Migrator {
    pub fn new() -> Self {
        Self
    }

    /// The names of the schema scripts among the files of a directory, in the
    /// order in which they are applied: those with the extension `sql`,
    /// ordered by name.
    pub fn script_order(&self, names: &Vec<String>) -> (scripts: Vec<String>)
        ensures
            is_ordered(name_views(scripts@)),
            name_views(scripts@).to_multiset() == name_views(names@).filter(
                is_script_name(),
            ).to_multiset(),
    {
        let mut scripts: Vec<String> = Vec::new();
        let mut i: usize = 0;
        proof {
            assert(names@.take(0) =~= Seq::<String>::empty());
            assert(name_views(Seq::<String>::empty()) =~= Seq::<Seq<char>>::empty());
            assert(Seq::<Seq<char>>::empty().filter(is_script_name()) =~= Seq::<
                Seq<char>,
            >::empty()) by {
                reveal(Seq::filter);
            }
            assert(name_views(scripts@) =~= Seq::<Seq<char>>::empty());
        }
        while i < names.len()
            invariant
                i <= names.len(),
                is_ordered(name_views(scripts@)),
                name_views(scripts@).to_multiset() == name_views(names@.take(i as int)).filter(
                    is_script_name(),
                ).to_multiset(),
            decreases names.len() - i,
        {
            let name = &names[i];
            proof {
                assert(names@.take(i + 1) =~= names@.take(i as int).push(*name));
                assert(name_views(names@.take(i as int).push(*name)) =~= name_views(
                    names@.take(i as int),
                ).push(name@));
                name_views(names@.take(i as int)).lemma_filter_push(name@, is_script_name());
                name_views(names@.take(i as int)).filter(is_script_name()).to_multiset_ensures();
            }
            if has_sql_extension(name.as_str()) {
                let ghost before = scripts@;
                let mut pos: usize = 0;
                while pos < scripts.len() && name_precedes(scripts[pos].as_str(), name.as_str())
                    invariant
                        pos <= scripts.len(),
                        scripts@ == before,
                        forall|k: int| 0 <= k < pos ==> name_le(name_views(before)[k], name@),
                    decreases scripts.len() - pos,
                {
                    pos += 1;
                }
                scripts.insert(pos, name.clone());
                proof {
                    let old_names = name_views(before);
                    let new_names = name_views(scripts@);
                    assert(new_names =~= old_names.insert(pos as int, name@));
                    to_multiset_insert(old_names, pos as int, name@);
                    assert forall|a: int, b: int| 0 <= a <= b < new_names.len() implies name_le(
                        new_names[a],
                        new_names[b],
                    ) by {
                        lemma_bytes_le_reflexive(encode_utf8(name@));
                        if b == pos && a < pos {
                        } else if a == pos && b > pos {
                            let first = old_names[pos as int];
                            lemma_bytes_le_total(encode_utf8(first), encode_utf8(name@));
                            assert(name_le(first, old_names[b - 1]));
                            lemma_bytes_le_transitive(
                                encode_utf8(name@),
                                encode_utf8(first),
                                encode_utf8(old_names[b - 1]),
                            );
                        } else if a == pos && b == pos {
                        } else {
                            let a0 = if a < pos { a } else { a - 1 };
                            let b0 = if b < pos { b } else { b - 1 };
                            assert(name_le(old_names[a0], old_names[b0]));
                        }
                    }
                }
            }
            i += 1;
        }
        assert(names@.take(i as int) =~= names@);
        scripts
    }

    /// Joins the texts of the schema scripts, given in the order in which
    /// they are applied, into one batch: a line feed follows each script.
    pub fn get_migrations(&self, scripts: &Vec<String>) -> (batch: String)
        ensures
            batch@ == batch_of(name_views(scripts@)),
    {
        let mut batch = String::new();
        let mut i: usize = 0;
        assert(scripts@.take(0) =~= Seq::<String>::empty());
        assert(name_views(Seq::<String>::empty()) =~= Seq::<Seq<char>>::empty());
        while i < scripts.len()
            invariant
                i <= scripts.len(),
                batch@ == batch_of(name_views(scripts@.take(i as int))),
            decreases scripts.len() - i,
        {
            proof {
                reveal_strlit("\n");
                let done = name_views(scripts@.take(i as int));
                let next = name_views(scripts@.take(i + 1));
                assert(scripts@.take(i + 1) =~= scripts@.take(i as int).push(scripts@[i as int]));
                assert(next =~= done.push(scripts@[i as int]@));
                assert(next.drop_last() =~= done);
                assert("\n"@ =~= seq!['\n']);
            }
            batch.append(scripts[i].as_str());
            batch.append("\n");
            i += 1;
        }
        assert(scripts@.take(i as int) =~= scripts@);
        batch
    }
}

} // verus!
