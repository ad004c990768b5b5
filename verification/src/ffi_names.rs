//! Entry-point names.
//!
//! Every name is built from the namespace of the declaration, a fixed word
//! for the kind of entry point, the owner's name where there is one, and the
//! item's name, joined by the separator `_`.
//!
//! An owner's name is written escaped, so that the first separator behind the
//! kind word is always the one that ends the owner: `_` inside an owner is
//! written `$u`, and `$` is written `$$`. An owner that holds neither is
//! written as it is. Two declarations of one namespace that differ in owner or
//! in name therefore never share a name, whatever their texts are.

use vstd::prelude::*;
use vstd::string::{StrSliceExecFns, StringExecFns};

verus! {

/// The character that joins the parts of a name.
pub open spec fn separator() -> char {
    '_'
}

/// The character that starts an escape inside an owner's name.
pub open spec fn escape() -> char {
    '$'
}

/// Whether `part` is free of the separator.
pub open spec fn separator_free(part: Seq<char>) -> bool {
    forall|i: int| 0 <= i < part.len() ==> #[trigger] part[i] != separator()
}

/// How one character of an owner's name is written: the separator as `$u`,
/// the escape character doubled, any other character as it is.
pub open spec fn escaped_char(c: char) -> Seq<char> {
    if c == separator() {
        seq![escape(), 'u']
    } else if c == escape() {
        seq![escape(), escape()]
    } else {
        seq![c]
    }
}

/// How an owner's name is written: character by character, escaped.
pub open spec fn escaped(part: Seq<char>) -> Seq<char>
    decreases part.len(),
{
    if part.len() == 0 {
        Seq::empty()
    } else {
        escaped_char(part[0]) + escaped(part.drop_first())
    }
}

/// An owner's name, escaped, and an item's name, joined by the separator.
pub open spec fn spec_owned_name(owner: Seq<char>, name: Seq<char>) -> Seq<char> {
    escaped(owner) + seq![separator()] + name
}

/// The name of the entry point of a top-level function.
pub open spec fn spec_fn_symbol_name(namespace: Seq<char>, name: Seq<char>) -> Seq<char> {
    "uniffi_"@ + namespace + "_fn_func_"@ + name
}

/// The name of the entry point of a constructor.
pub open spec fn spec_constructor_symbol_name(
    namespace: Seq<char>,
    object_name: Seq<char>,
    name: Seq<char>,
) -> Seq<char> {
    "uniffi_"@ + namespace + "_fn_constructor_"@ + spec_owned_name(object_name, name)
}

/// The name of the entry point of a method.
pub open spec fn spec_method_symbol_name(
    namespace: Seq<char>,
    object_name: Seq<char>,
    name: Seq<char>,
) -> Seq<char> {
    "uniffi_"@ + namespace + "_fn_method_"@ + spec_owned_name(object_name, name)
}

/// The name of the entry point that frees an object.
pub open spec fn spec_free_fn_symbol_name(namespace: Seq<char>, object_name: Seq<char>) -> Seq<
    char,
> {
    "uniffi_"@ + namespace + "_fn_free_"@ + object_name
}

/// The name of the checksum accessor of a top-level function.
pub open spec fn spec_fn_checksum_symbol_name(namespace: Seq<char>, name: Seq<char>) -> Seq<char> {
    "uniffi_"@ + namespace + "_checksum_func_"@ + name
}

/// The name of the checksum accessor of a constructor.
pub open spec fn spec_constructor_checksum_symbol_name(
    namespace: Seq<char>,
    object_name: Seq<char>,
    name: Seq<char>,
) -> Seq<char> {
    "uniffi_"@ + namespace + "_checksum_constructor_"@ + spec_owned_name(object_name, name)
}

/// The name of the checksum accessor of a method.
pub open spec fn spec_method_checksum_symbol_name(
    namespace: Seq<char>,
    object_name: Seq<char>,
    name: Seq<char>,
) -> Seq<char> {
    "uniffi_"@ + namespace + "_checksum_method_"@ + spec_owned_name(object_name, name)
}

/// `uniffi_`, the namespace, `kind`, then `rest`.
fn symbol_name(namespace: &str, kind: &str, rest: &str) -> (symbol: String)
    ensures
        symbol@ == "uniffi_"@ + namespace@ + kind@ + rest@,
{
    let mut symbol = String::from_str("uniffi_");
    symbol.append(namespace);
    symbol.append(kind);
    symbol.append(rest);
    symbol
}

/// Appends `part`, escaped, to `symbol`.
fn push_escaped(symbol: &mut String, part: &str)
    ensures
        final(symbol)@ == old(symbol)@ + escaped(part@),
{
    let count = part.unicode_len();
    let mut i: usize = 0;
    proof {
        assert(part@.take(0) =~= Seq::empty());
        assert(symbol@ =~= old(symbol)@ + escaped(part@.take(0)));
    }
    while i < count
        invariant
            i <= count,
            count == part@.len(),
            symbol@ == old(symbol)@ + escaped(part@.take(i as int)),
        decreases count - i,
    {
        let ghost before = symbol@;
        let c = part.get_char(i);
        if c == '_' {
            symbol.append("$u");
        } else if c == '$' {
            symbol.append("$$");
        } else {
            symbol.append(part.substring_char(i, i + 1));
        }
        proof {
            reveal_strlit("$u");
            reveal_strlit("$$");
            assert(symbol@ =~= before + escaped_char(c));
            lemma_escaped_push(part@.take(i as int), c);
            assert(part@.take(i + 1) =~= part@.take(i as int).push(c));
            assert(symbol@ =~= old(symbol)@ + escaped(part@.take(i + 1)));
        }
        i += 1;
    }
    proof {
        assert(part@.take(count as int) =~= part@);
    }
}

/// `uniffi_`, the namespace, `kind`, then the owner, escaped, and the item,
/// joined by the separator.
fn owned_symbol_name(namespace: &str, kind: &str, owner: &str, name: &str) -> (symbol: String)
    ensures
        symbol@ == "uniffi_"@ + namespace@ + kind@ + spec_owned_name(owner@, name@),
{
    let mut symbol = String::from_str("uniffi_");
    symbol.append(namespace);
    symbol.append(kind);
    push_escaped(&mut symbol, owner);
    symbol.append("_");
    symbol.append(name);
    proof {
        reveal_strlit("_");
        assert("_"@ =~= seq![separator()]);
        assert(symbol@ =~= "uniffi_"@ + namespace@ + kind@ + spec_owned_name(owner@, name@));
    }
    symbol
}

/// The name of the entry point of a top-level function.
pub fn fn_symbol_name(namespace: &str, name: &str) -> (symbol: String)
    ensures
        symbol@ == spec_fn_symbol_name(namespace@, name@),
{
    symbol_name(namespace, "_fn_func_", name)
}

/// The name of the entry point of a constructor.
pub fn constructor_symbol_name(namespace: &str, object_name: &str, name: &str) -> (symbol: String)
    ensures
        symbol@ == spec_constructor_symbol_name(namespace@, object_name@, name@),
{
    owned_symbol_name(namespace, "_fn_constructor_", object_name, name)
}

/// The name of the entry point of a method.
pub fn method_symbol_name(namespace: &str, object_name: &str, name: &str) -> (symbol: String)
    ensures
        symbol@ == spec_method_symbol_name(namespace@, object_name@, name@),
{
    owned_symbol_name(namespace, "_fn_method_", object_name, name)
}

/// The name of the entry point that frees an object.
pub fn free_fn_symbol_name(namespace: &str, object_name: &str) -> (symbol: String)
    ensures
        symbol@ == spec_free_fn_symbol_name(namespace@, object_name@),
{
    symbol_name(namespace, "_fn_free_", object_name)
}

/// The name of the checksum accessor of a top-level function.
pub fn fn_checksum_symbol_name(namespace: &str, name: &str) -> (symbol: String)
    ensures
        symbol@ == spec_fn_checksum_symbol_name(namespace@, name@),
{
    symbol_name(namespace, "_checksum_func_", name)
}

/// The name of the checksum accessor of a constructor.
pub fn constructor_checksum_symbol_name(namespace: &str, object_name: &str, name: &str) -> (symbol:
    String)
    ensures
        symbol@ == spec_constructor_checksum_symbol_name(namespace@, object_name@, name@),
{
    owned_symbol_name(namespace, "_checksum_constructor_", object_name, name)
}

/// The name of the checksum accessor of a method.
pub fn method_checksum_symbol_name(namespace: &str, object_name: &str, name: &str) -> (symbol:
    String)
    ensures
        symbol@ == spec_method_checksum_symbol_name(namespace@, object_name@, name@),
{
    owned_symbol_name(namespace, "_checksum_method_", object_name, name)
}

/// Two texts that start alike and are equal end alike.
pub proof fn lemma_common_prefix_cancels(prefix: Seq<char>, a: Seq<char>, b: Seq<char>)
    requires
        prefix + a == prefix + b,
    ensures
        a == b,
{
    let n = prefix.len() as int;
    let whole_a = prefix + a;
    let whole_b = prefix + b;
    assert(whole_a.len() == n + a.len() && whole_b.len() == n + b.len());
    assert forall|i: int| 0 <= i < a.len() implies a[i] == b[i] by {
        assert(whole_a[n + i] == a[i]);
        assert(whole_b[n + i] == b[i]);
    }
    assert(a =~= b);
}

/// Writing one more character appends what that character is written as.
pub proof fn lemma_escaped_push(part: Seq<char>, c: char)
    ensures
        escaped(part.push(c)) == escaped(part) + escaped_char(c),
    decreases part.len(),
{
    let longer = part.push(c);
    if part.len() == 0 {
        assert(longer.drop_first() =~= Seq::empty());
        assert(escaped(longer.drop_first()) =~= Seq::empty());
        assert(escaped(longer) =~= escaped_char(c));
        assert(escaped(part) + escaped_char(c) =~= escaped_char(c));
    } else {
        lemma_escaped_push(part.drop_first(), c);
        assert(longer.drop_first() =~= part.drop_first().push(c));
        assert(escaped(longer) =~= escaped(part) + escaped_char(c));
    }
}

/// An escaped name holds no separator.
pub proof fn lemma_escaped_is_separator_free(part: Seq<char>)
    ensures
        separator_free(escaped(part)),
    decreases part.len(),
{
    if part.len() != 0 {
        lemma_escaped_is_separator_free(part.drop_first());
        let first = escaped_char(part[0]);
        let rest = escaped(part.drop_first());
        assert forall|i: int| 0 <= i < escaped(part).len() implies #[trigger] escaped(part)[i]
            != separator() by {
            if i >= first.len() {
                assert(escaped(part)[i] == rest[i - first.len()]);
            }
        }
    }
}

/// A name can be read back from what it is written as.
pub proof fn lemma_escaped_injective(a: Seq<char>, b: Seq<char>)
    requires
        escaped(a) == escaped(b),
    ensures
        a == b,
    decreases a.len(),
{
    if a.len() == 0 {
        if b.len() != 0 {
            assert(escaped(b).len() >= escaped_char(b[0]).len());
        }
        assert(a =~= b);
    } else {
        if b.len() == 0 {
            assert(escaped(a).len() >= escaped_char(a[0]).len());
        }
        let first_a = escaped_char(a[0]);
        let first_b = escaped_char(b[0]);
        let rest_a = escaped(a.drop_first());
        let rest_b = escaped(b.drop_first());
        let written = escaped(a);
        assert(written[0] == first_a[0] && written[0] == first_b[0]);
        if first_a.len() == 2 {
            assert(written[1] == first_a[1]);
        }
        if first_b.len() == 2 {
            assert(written[1] == first_b[1]);
        }
        assert(a[0] == b[0]);
        lemma_common_prefix_cancels(first_a, rest_a, rest_b);
        lemma_escaped_injective(a.drop_first(), b.drop_first());
        assert(a =~= seq![a[0]] + a.drop_first());
        assert(b =~= seq![b[0]] + b.drop_first());
    }
}

/// An owner and an item can be read back from their joined name, whatever
/// their texts are.
pub proof fn lemma_owned_name_injective(
    owner_a: Seq<char>,
    name_a: Seq<char>,
    owner_b: Seq<char>,
    name_b: Seq<char>,
)
    requires
        spec_owned_name(owner_a, name_a) == spec_owned_name(owner_b, name_b),
    ensures
        owner_a == owner_b,
        name_a == name_b,
{
    let written_a = escaped(owner_a);
    let written_b = escaped(owner_b);
    let joined_a = spec_owned_name(owner_a, name_a);
    let joined_b = spec_owned_name(owner_b, name_b);
    let la = written_a.len() as int;
    let lb = written_b.len() as int;
    lemma_escaped_is_separator_free(owner_a);
    lemma_escaped_is_separator_free(owner_b);
    assert(joined_a[la] == separator());
    assert(joined_b[lb] == separator());
    if la < lb {
        assert(joined_b[la] == written_b[la]);
    }
    if lb < la {
        assert(joined_a[lb] == written_a[lb]);
    }
    assert(written_a =~= joined_a.subrange(0, la));
    assert(written_b =~= joined_b.subrange(0, lb));
    lemma_common_prefix_cancels(written_a + seq![separator()], name_a, name_b);
    lemma_escaped_injective(owner_a, owner_b);
}

/// Two methods, or two constructors, of one namespace share an entry point, or
/// a checksum accessor, exactly when they have the same owner and the same
/// name.
pub proof fn lemma_owned_symbol_names_equal_iff(
    namespace: Seq<char>,
    owner_a: Seq<char>,
    name_a: Seq<char>,
    owner_b: Seq<char>,
    name_b: Seq<char>,
)
    ensures
        spec_method_symbol_name(namespace, owner_a, name_a) == spec_method_symbol_name(
            namespace,
            owner_b,
            name_b,
        ) <==> owner_a == owner_b && name_a == name_b,
        spec_method_checksum_symbol_name(namespace, owner_a, name_a)
            == spec_method_checksum_symbol_name(namespace, owner_b, name_b) <==> owner_a == owner_b
            && name_a == name_b,
        spec_constructor_symbol_name(namespace, owner_a, name_a) == spec_constructor_symbol_name(
            namespace,
            owner_b,
            name_b,
        ) <==> owner_a == owner_b && name_a == name_b,
        spec_constructor_checksum_symbol_name(namespace, owner_a, name_a)
            == spec_constructor_checksum_symbol_name(namespace, owner_b, name_b) <==> owner_a
            == owner_b && name_a == name_b,
{
    let joined_a = spec_owned_name(owner_a, name_a);
    let joined_b = spec_owned_name(owner_b, name_b);
    if spec_method_symbol_name(namespace, owner_a, name_a) == spec_method_symbol_name(
        namespace,
        owner_b,
        name_b,
    ) {
        lemma_common_prefix_cancels("uniffi_"@ + namespace + "_fn_method_"@, joined_a, joined_b);
    }
    if spec_method_checksum_symbol_name(namespace, owner_a, name_a)
        == spec_method_checksum_symbol_name(namespace, owner_b, name_b) {
        lemma_common_prefix_cancels(
            "uniffi_"@ + namespace + "_checksum_method_"@,
            joined_a,
            joined_b,
        );
    }
    if spec_constructor_symbol_name(namespace, owner_a, name_a) == spec_constructor_symbol_name(
        namespace,
        owner_b,
        name_b,
    ) {
        lemma_common_prefix_cancels(
            "uniffi_"@ + namespace + "_fn_constructor_"@,
            joined_a,
            joined_b,
        );
    }
    if spec_constructor_checksum_symbol_name(namespace, owner_a, name_a)
        == spec_constructor_checksum_symbol_name(namespace, owner_b, name_b) {
        lemma_common_prefix_cancels(
            "uniffi_"@ + namespace + "_checksum_constructor_"@,
            joined_a,
            joined_b,
        );
    }
    if joined_a == joined_b {
        lemma_owned_name_injective(owner_a, name_a, owner_b, name_b);
    }
}

/// Two functions of one namespace with different names have different entry
/// points, and different checksum accessors.
pub proof fn lemma_fn_symbol_names_unique(
    namespace: Seq<char>,
    name_a: Seq<char>,
    name_b: Seq<char>,
)
    requires
        name_a != name_b,
    ensures
        spec_fn_symbol_name(namespace, name_a) != spec_fn_symbol_name(namespace, name_b),
        spec_fn_checksum_symbol_name(namespace, name_a) != spec_fn_checksum_symbol_name(
            namespace,
            name_b,
        ),
{
    if spec_fn_symbol_name(namespace, name_a) == spec_fn_symbol_name(namespace, name_b) {
        lemma_common_prefix_cancels("uniffi_"@ + namespace + "_fn_func_"@, name_a, name_b);
    }
    if spec_fn_checksum_symbol_name(namespace, name_a) == spec_fn_checksum_symbol_name(
        namespace,
        name_b,
    ) {
        lemma_common_prefix_cancels("uniffi_"@ + namespace + "_checksum_func_"@, name_a, name_b);
    }
}

/// Two objects of one namespace with different names are freed through
/// different entry points.
pub proof fn lemma_free_fn_symbol_names_unique(
    namespace: Seq<char>,
    object_a: Seq<char>,
    object_b: Seq<char>,
)
    requires
        object_a != object_b,
    ensures
        spec_free_fn_symbol_name(namespace, object_a) != spec_free_fn_symbol_name(
            namespace,
            object_b,
        ),
{
    if spec_free_fn_symbol_name(namespace, object_a) == spec_free_fn_symbol_name(
        namespace,
        object_b,
    ) {
        lemma_common_prefix_cancels("uniffi_"@ + namespace + "_fn_free_"@, object_a, object_b);
    }
}

/// Two methods of one namespace that differ in owner or in name have different
/// entry points, and different checksum accessors.
pub proof fn lemma_method_symbol_names_unique(
    namespace: Seq<char>,
    owner_a: Seq<char>,
    name_a: Seq<char>,
    owner_b: Seq<char>,
    name_b: Seq<char>,
)
    requires
        owner_a != owner_b || name_a != name_b,
    ensures
        spec_method_symbol_name(namespace, owner_a, name_a) != spec_method_symbol_name(
            namespace,
            owner_b,
            name_b,
        ),
        spec_method_checksum_symbol_name(namespace, owner_a, name_a)
            != spec_method_checksum_symbol_name(namespace, owner_b, name_b),
{
    lemma_owned_symbol_names_equal_iff(namespace, owner_a, name_a, owner_b, name_b);
}

/// Two constructors of one namespace that differ in owner or in name have
/// different entry points, and different checksum accessors.
pub proof fn lemma_constructor_symbol_names_unique(
    namespace: Seq<char>,
    owner_a: Seq<char>,
    name_a: Seq<char>,
    owner_b: Seq<char>,
    name_b: Seq<char>,
)
    requires
        owner_a != owner_b || name_a != name_b,
    ensures
        spec_constructor_symbol_name(namespace, owner_a, name_a) != spec_constructor_symbol_name(
            namespace,
            owner_b,
            name_b,
        ),
        spec_constructor_checksum_symbol_name(namespace, owner_a, name_a)
            != spec_constructor_checksum_symbol_name(namespace, owner_b, name_b),
{
    lemma_owned_symbol_names_equal_iff(namespace, owner_a, name_a, owner_b, name_b);
}

/// Two texts that differ in their first character are different, whatever
/// stands before and behind.
proof fn lemma_kinds_differ(
    prefix: Seq<char>,
    kind_a: Seq<char>,
    rest_a: Seq<char>,
    kind_b: Seq<char>,
    rest_b: Seq<char>,
    at: int,
)
    requires
        0 <= at < kind_a.len(),
        at < kind_b.len(),
        kind_a[at] != kind_b[at],
    ensures
        prefix + kind_a + rest_a != prefix + kind_b + rest_b,
{
    let i = prefix.len() + at;
    assert((prefix + kind_a + rest_a)[i] == kind_a[at]);
    assert((prefix + kind_b + rest_b)[i] == kind_b[at]);
}

/// Within one namespace, entry points of different kinds never share a name:
/// a function, a constructor, a method and a destructor are told apart by the
/// word that follows the namespace, and so is each from every checksum
/// accessor.
pub proof fn lemma_symbol_kinds_disjoint(
    namespace: Seq<char>,
    owner_a: Seq<char>,
    name_a: Seq<char>,
    owner_b: Seq<char>,
    name_b: Seq<char>,
)
    ensures
        spec_fn_symbol_name(namespace, name_a) != spec_constructor_symbol_name(
            namespace,
            owner_b,
            name_b,
        ),
        spec_fn_symbol_name(namespace, name_a) != spec_method_symbol_name(
            namespace,
            owner_b,
            name_b,
        ),
        spec_fn_symbol_name(namespace, name_a) != spec_free_fn_symbol_name(namespace, owner_b),
        spec_constructor_symbol_name(namespace, owner_a, name_a) != spec_method_symbol_name(
            namespace,
            owner_b,
            name_b,
        ),
        spec_constructor_symbol_name(namespace, owner_a, name_a) != spec_free_fn_symbol_name(
            namespace,
            owner_b,
        ),
        spec_method_symbol_name(namespace, owner_a, name_a) != spec_free_fn_symbol_name(
            namespace,
            owner_b,
        ),
        spec_fn_checksum_symbol_name(namespace, name_a) != spec_constructor_checksum_symbol_name(
            namespace,
            owner_b,
            name_b,
        ),
        spec_fn_checksum_symbol_name(namespace, name_a) != spec_method_checksum_symbol_name(
            namespace,
            owner_b,
            name_b,
        ),
        spec_constructor_checksum_symbol_name(namespace, owner_a, name_a)
            != spec_method_checksum_symbol_name(namespace, owner_b, name_b),
{
    reveal_strlit("_fn_func_");
    reveal_strlit("_fn_constructor_");
    reveal_strlit("_fn_method_");
    reveal_strlit("_fn_free_");
    reveal_strlit("_checksum_func_");
    reveal_strlit("_checksum_constructor_");
    reveal_strlit("_checksum_method_");
    let prefix = "uniffi_"@ + namespace;
    let joined_a = spec_owned_name(owner_a, name_a);
    let joined_b = spec_owned_name(owner_b, name_b);
    lemma_kinds_differ(prefix, "_fn_func_"@, name_a, "_fn_constructor_"@, joined_b, 4);
    lemma_kinds_differ(prefix, "_fn_func_"@, name_a, "_fn_method_"@, joined_b, 4);
    lemma_kinds_differ(prefix, "_fn_func_"@, name_a, "_fn_free_"@, owner_b, 5);
    lemma_kinds_differ(prefix, "_fn_constructor_"@, joined_a, "_fn_method_"@, joined_b, 4);
    lemma_kinds_differ(prefix, "_fn_constructor_"@, joined_a, "_fn_free_"@, owner_b, 4);
    lemma_kinds_differ(prefix, "_fn_method_"@, joined_a, "_fn_free_"@, owner_b, 4);
    lemma_kinds_differ(
        prefix,
        "_checksum_func_"@,
        name_a,
        "_checksum_constructor_"@,
        joined_b,
        10,
    );
    lemma_kinds_differ(prefix, "_checksum_func_"@, name_a, "_checksum_method_"@, joined_b, 10);
    lemma_kinds_differ(
        prefix,
        "_checksum_constructor_"@,
        joined_a,
        "_checksum_method_"@,
        joined_b,
        10,
    );
}

/// Within one namespace, no entry point shares its name with a checksum
/// accessor: the first is told apart from the second by the word `fn` or
/// `checksum` that follows the namespace.
pub proof fn lemma_entry_points_are_no_accessors(
    namespace: Seq<char>,
    owner_a: Seq<char>,
    name_a: Seq<char>,
    owner_b: Seq<char>,
    name_b: Seq<char>,
)
    ensures
        ({
            let accessors = set![
                spec_fn_checksum_symbol_name(namespace, name_b),
                spec_constructor_checksum_symbol_name(namespace, owner_b, name_b),
                spec_method_checksum_symbol_name(namespace, owner_b, name_b),
            ];
            &&& !accessors.contains(spec_fn_symbol_name(namespace, name_a))
            &&& !accessors.contains(spec_constructor_symbol_name(namespace, owner_a, name_a))
            &&& !accessors.contains(spec_method_symbol_name(namespace, owner_a, name_a))
            &&& !accessors.contains(spec_free_fn_symbol_name(namespace, owner_a))
        }),
{
    reveal_strlit("_fn_func_");
    reveal_strlit("_fn_constructor_");
    reveal_strlit("_fn_method_");
    reveal_strlit("_fn_free_");
    reveal_strlit("_checksum_func_");
    reveal_strlit("_checksum_constructor_");
    reveal_strlit("_checksum_method_");
    let prefix = "uniffi_"@ + namespace;
    let joined_a = spec_owned_name(owner_a, name_a);
    let joined_b = spec_owned_name(owner_b, name_b);
    lemma_kinds_differ(prefix, "_fn_func_"@, name_a, "_checksum_func_"@, name_b, 1);
    lemma_kinds_differ(prefix, "_fn_func_"@, name_a, "_checksum_constructor_"@, joined_b, 1);
    lemma_kinds_differ(prefix, "_fn_func_"@, name_a, "_checksum_method_"@, joined_b, 1);
    lemma_kinds_differ(prefix, "_fn_constructor_"@, joined_a, "_checksum_func_"@, name_b, 1);
    lemma_kinds_differ(
        prefix,
        "_fn_constructor_"@,
        joined_a,
        "_checksum_constructor_"@,
        joined_b,
        1,
    );
    lemma_kinds_differ(prefix, "_fn_constructor_"@, joined_a, "_checksum_method_"@, joined_b, 1);
    lemma_kinds_differ(prefix, "_fn_method_"@, joined_a, "_checksum_func_"@, name_b, 1);
    lemma_kinds_differ(prefix, "_fn_method_"@, joined_a, "_checksum_constructor_"@, joined_b, 1);
    lemma_kinds_differ(prefix, "_fn_method_"@, joined_a, "_checksum_method_"@, joined_b, 1);
    lemma_kinds_differ(prefix, "_fn_free_"@, owner_a, "_checksum_func_"@, name_b, 1);
    lemma_kinds_differ(prefix, "_fn_free_"@, owner_a, "_checksum_constructor_"@, joined_b, 1);
    lemma_kinds_differ(prefix, "_fn_free_"@, owner_a, "_checksum_method_"@, joined_b, 1);
}

} // verus!
