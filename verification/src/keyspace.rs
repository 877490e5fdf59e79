//! The layout of the catalog in the key-value store.
//!
//! A token is kept under four keys:
//! * `gantry:tokens:{subject}:{revision}` holds the decoded claims,
//! * `gantry:tokens:{subject}:{revision}:raw` holds the raw signed string,
//! * `gantry:tokens:{subject}:revisions` is the set of revisions on file,
//! * `gantry:actors`, `gantry:operators` or `gantry:accounts` is the set of
//!   subjects of that variant.
//!
//! The store itself is outside this crate. Here it is modelled as a map of
//! values and a map of sets, and the writes of a put are shown to keep the
//! layout sound after each of them.

use vstd::prelude::*;

use crate::protocol::catalog::QueryType;
use crate::protocol::token::TokenType;
use crate::text::glue;
use crate::text::decimal;
use crate::text::decimal_string;
use crate::text::is_digit;
use crate::text::lemma_decimal_digits;
use crate::text::lemma_decimal_injective;
use crate::text::owned;
use crate::text::starts_with_char;

verus! {

/// The variant that a subject belongs to, told by its first character.
/// A subject that begins otherwise belongs to none.
pub open spec fn variant_of(subject: Seq<char>) -> Option<TokenType> {
    if subject.len() > 0 && subject[0] == 'O' {
        Some(TokenType::Operator)
    } else if subject.len() > 0 && subject[0] == 'A' {
        Some(TokenType::Account)
    } else if subject.len() > 0 && subject[0] == 'M' {
        Some(TokenType::Actor)
    } else {
        None
    }
}

/// The key of the set of subjects of one variant.
pub open spec fn variant_key_of(kind: TokenType) -> Seq<char> {
    match kind {
        TokenType::Actor => "gantry:actors"@,
        TokenType::Operator => "gantry:operators"@,
        TokenType::Account => "gantry:accounts"@,
    }
}

/// The variant whose subjects a query of the given type lists.
pub open spec fn queried_variant(query_type: QueryType) -> TokenType {
    match query_type {
        QueryType::Actor => TokenType::Actor,
        QueryType::Operator => TokenType::Operator,
        QueryType::Account => TokenType::Account,
    }
}

/// The key of the set of revisions on file for a subject.
pub open spec fn revisions_key_of(subject: Seq<char>) -> Seq<char> {
    "gantry:tokens:"@ + subject + ":revisions"@
}

/// The key under which the decoded claims of one revision of a subject are kept.
pub open spec fn token_key_of(subject: Seq<char>, revision: u64) -> Seq<char> {
    "gantry:tokens:"@ + subject + ":"@ + decimal(revision as nat)
}

/// The key under which the raw signed string of one revision of a subject is kept.
pub open spec fn token_raw_key_of(subject: Seq<char>, revision: u64) -> Seq<char> {
    token_key_of(subject, revision) + ":raw"@
}

/// Tells the variant of a subject from its first character.
pub fn token_type(subject: &str) -> (r: Option<TokenType>)
    ensures
        r == variant_of(subject@),
{
    if starts_with_char(subject, 'O') {
        Some(TokenType::Operator)
    } else if starts_with_char(subject, 'A') {
        Some(TokenType::Account)
    } else if starts_with_char(subject, 'M') {
        Some(TokenType::Actor)
    } else {
        None
    }
}

/// The key of the set of subjects of one variant.
pub fn variant_key(kind: TokenType) -> (r: String)
    ensures
        r@ == variant_key_of(kind),
{
    match kind {
        TokenType::Actor => owned("gantry:actors"),
        TokenType::Operator => owned("gantry:operators"),
        TokenType::Account => owned("gantry:accounts"),
    }
}

/// The key of the set that a query of the given type enumerates.
pub fn query_set_key(query_type: QueryType) -> (r: String)
    ensures
        r@ == variant_key_of(queried_variant(query_type)),
{
    match query_type {
        QueryType::Actor => variant_key(TokenType::Actor),
        QueryType::Operator => variant_key(TokenType::Operator),
        QueryType::Account => variant_key(TokenType::Account),
    }
}

/// The key of the set of revisions on file for a subject.
pub fn revisions_key(subject: &str) -> (r: String)
    ensures
        r@ == revisions_key_of(subject@),
{
    let mut key: String = glue("gantry:tokens:", subject);
    key.append(":revisions");
    key
}

/// The key of the decoded claims of one revision of a subject.
pub fn token_key(subject: &str, revision: u64) -> (r: String)
    ensures
        r@ == token_key_of(subject@, revision),
{
    let mut key: String = glue("gantry:tokens:", subject);
    key.append(":");
    let numeral: String = decimal_string(revision);
    key.append(numeral.as_str());
    key
}

/// The key of the raw signed string of one revision of a subject.
pub fn token_raw_key(subject: &str, revision: u64) -> (r: String)
    ensures
        r@ == token_raw_key_of(subject@, revision),
{
    let mut key: String = token_key(subject, revision);
    key.append(":raw");
    key
}

/// One write to the key-value store.
#[derive(Debug, PartialEq)]
pub enum KvOp {
    /// Store `value` under `key`, replacing what was there.
    SetValue { key: String, value: String },
    /// Add `member` to the set under `key`.
    SetAdd { key: String, member: String },
}

/// A write as mathematical data.
pub enum KvOpView {
    SetValue { key: Seq<char>, value: Seq<char> },
    SetAdd { key: Seq<char>, member: Seq<char> },
}

impl View for KvOp {
    type V = KvOpView;

    open spec fn view(&self) -> KvOpView {
        match self {
            KvOp::SetValue { key, value } => KvOpView::SetValue { key: key@, value: value@ },
            KvOp::SetAdd { key, member } => KvOpView::SetAdd { key: key@, member: member@ },
        }
    }
}

/// The views of a list of writes, in order.
pub open spec fn op_views(ops: Seq<KvOp>) -> Seq<KvOpView> {
    ops.map_values(|op: KvOp| op@)
}

/// The four writes of a put, in the order in which they are made: the decoded
/// claims, the raw string, the revision, and last the subject's entry in the
/// set of its variant.
pub open spec fn put_writes(
    subject: Seq<char>,
    revision: u64,
    kind: TokenType,
    decoded: Seq<char>,
    raw: Seq<char>,
) -> Seq<KvOpView> {
    seq![
        KvOpView::SetValue { key: token_key_of(subject, revision), value: decoded },
        KvOpView::SetValue { key: token_raw_key_of(subject, revision), value: raw },
        KvOpView::SetAdd { key: revisions_key_of(subject), member: decimal(revision as nat) },
        KvOpView::SetAdd { key: variant_key_of(kind), member: subject },
    ]
}

/// The key-value store as the catalog sees it: values under some keys, sets
/// under others.
pub struct Store {
    pub values: Map<Seq<char>, Seq<char>>,
    pub sets: Map<Seq<char>, Set<Seq<char>>>,
}

/// A store that holds nothing.
pub open spec fn empty_store() -> Store {
    Store { values: Map::empty(), sets: Map::empty() }
}

/// The members of the set under `key`; none where there is no such set.
pub open spec fn members(store: Store, key: Seq<char>) -> Set<Seq<char>> {
    if store.sets.dom().contains(key) {
        store.sets[key]
    } else {
        Set::empty()
    }
}

/// The store after one write.
pub open spec fn apply(store: Store, op: KvOpView) -> Store {
    match op {
        KvOpView::SetValue { key, value } => Store {
            values: store.values.insert(key, value),
            sets: store.sets,
        },
        KvOpView::SetAdd { key, member } => Store {
            values: store.values,
            sets: store.sets.insert(key, members(store, key).insert(member)),
        },
    }
}

/// The store after a list of writes, made in order.
pub open spec fn apply_all(store: Store, ops: Seq<KvOpView>) -> Store
    decreases ops.len(),
{
    if ops.len() == 0 {
        store
    } else {
        apply(apply_all(store, ops.drop_last()), ops.last())
    }
}

/// Whether `subject` is in the set of the variant `kind`.
pub open spec fn listed(store: Store, kind: TokenType, subject: Seq<char>) -> bool {
    members(store, variant_key_of(kind)).contains(subject)
}

/// Whether `revision` is on file for `subject`: it is in the subject's set of
/// revisions, and its decoded claims are stored.
pub open spec fn on_file(store: Store, subject: Seq<char>, revision: u64) -> bool {
    &&& members(store, revisions_key_of(subject)).contains(decimal(revision as nat))
    &&& store.values.dom().contains(token_key_of(subject, revision))
}

/// Every subject in a variant set has a revision on file.
pub open spec fn backed(store: Store) -> bool {
    forall|kind: TokenType, subject: Seq<char>| #[trigger]
        listed(store, kind, subject) ==> exists|revision: u64| #[trigger]
            on_file(store, subject, revision)
}

/// Every subject in a variant set is of that variant.
pub open spec fn sorted(store: Store) -> bool {
    forall|kind: TokenType, subject: Seq<char>| #[trigger]
        listed(store, kind, subject) ==> variant_of(subject) == Some(kind)
}

/// No subject is in two variant sets.
pub open spec fn exclusive(store: Store) -> bool {
    forall|first: TokenType, second: TokenType, subject: Seq<char>|
        #[trigger] listed(store, first, subject) && #[trigger] listed(store, second, subject)
            ==> first == second
}

/// What holds of the store before and after every write of a put.
pub open spec fn consistent(store: Store) -> bool {
    backed(store) && sorted(store)
}

/// The three variant sets have three different keys, and none of them is the
/// key of a set of revisions.
pub proof fn lemma_set_keys_differ(subject: Seq<char>, kind: TokenType)
    ensures
        revisions_key_of(subject) != variant_key_of(kind),
        variant_key_of(TokenType::Actor) != variant_key_of(TokenType::Operator),
        variant_key_of(TokenType::Actor) != variant_key_of(TokenType::Account),
        variant_key_of(TokenType::Operator) != variant_key_of(TokenType::Account),
{
    reveal_strlit("gantry:tokens:");
    reveal_strlit("gantry:actors");
    reveal_strlit("gantry:operators");
    reveal_strlit("gantry:accounts");
    assert(revisions_key_of(subject)[7] == 't');
    assert(variant_key_of(kind)[7] != 't');
    assert(variant_key_of(TokenType::Actor)[8] == 'c');
    assert(variant_key_of(TokenType::Operator)[7] == 'o');
    assert(variant_key_of(TokenType::Account)[7] == 'a');
    assert(variant_key_of(TokenType::Account)[9] == 'c');
    assert(variant_key_of(TokenType::Actor)[9] == 't');
}

/// A consistent store has no subject in two variant sets.
pub proof fn lemma_consistent_is_exclusive(store: Store)
    requires
        consistent(store),
    ensures
        exclusive(store),
{
}

/// In a consistent store every subject of a variant set has a revision in its
/// set of revisions whose decoded claims are stored.
pub proof fn lemma_consistent_is_backed(store: Store, kind: TokenType, subject: Seq<char>)
    requires
        consistent(store),
        listed(store, kind, subject),
    ensures
        exists|revision: u64|
            members(store, revisions_key_of(subject)).contains(decimal(revision as nat))
                && store.values.dom().contains(#[trigger] token_key_of(subject, revision)),
{
    let revision = choose|revision: u64| #[trigger] on_file(store, subject, revision);
    assert(on_file(store, subject, revision));
    assert(store.values.dom().contains(token_key_of(subject, revision)));
}

/// The empty store is consistent.
pub proof fn lemma_empty_is_consistent()
    ensures
        consistent(empty_store()),
{
}

/// Storing a value keeps a consistent store consistent.
pub proof fn lemma_set_keeps_consistent(store: Store, key: Seq<char>, value: Seq<char>)
    requires
        consistent(store),
    ensures
        consistent(apply(store, KvOpView::SetValue { key, value })),
{
    let after = apply(store, KvOpView::SetValue { key, value });
    assert forall|kind: TokenType, subject: Seq<char>| #[trigger]
        listed(after, kind, subject) implies exists|revision: u64| #[trigger]
        on_file(after, subject, revision) by {
        assert(listed(store, kind, subject));
        let revision = choose|revision: u64| #[trigger] on_file(store, subject, revision);
        assert(on_file(after, subject, revision));
    }
    assert forall|kind: TokenType, subject: Seq<char>| #[trigger]
        listed(after, kind, subject) implies variant_of(subject) == Some(kind) by {
        assert(listed(store, kind, subject));
    }
}

/// Adding a member to a subject's set of revisions keeps a consistent store
/// consistent.
pub proof fn lemma_revision_keeps_consistent(store: Store, owner: Seq<char>, member: Seq<char>)
    requires
        consistent(store),
    ensures
        consistent(apply(store, KvOpView::SetAdd { key: revisions_key_of(owner), member })),
{
    let key = revisions_key_of(owner);
    let after = apply(store, KvOpView::SetAdd { key, member });
    assert forall|kind: TokenType, subject: Seq<char>| #[trigger]
        listed(after, kind, subject) implies listed(store, kind, subject) by {
        lemma_set_keys_differ(owner, kind);
    }
    assert forall|kind: TokenType, subject: Seq<char>| #[trigger]
        listed(after, kind, subject) implies exists|revision: u64| #[trigger]
        on_file(after, subject, revision) by {
        assert(listed(store, kind, subject));
        let revision = choose|revision: u64| #[trigger] on_file(store, subject, revision);
        assert(on_file(after, subject, revision));
    }
    assert forall|kind: TokenType, subject: Seq<char>| #[trigger]
        listed(after, kind, subject) implies variant_of(subject) == Some(kind) by {
        assert(listed(store, kind, subject));
    }
}

/// Entering a subject into the set of its variant keeps a consistent store
/// consistent, provided that a revision of the subject is on file.
pub proof fn lemma_listing_keeps_consistent(
    store: Store,
    kind: TokenType,
    subject: Seq<char>,
    revision: u64,
)
    requires
        consistent(store),
        variant_of(subject) == Some(kind),
        on_file(store, subject, revision),
    ensures
        consistent(apply(store, KvOpView::SetAdd { key: variant_key_of(kind), member: subject })),
{
    let key = variant_key_of(kind);
    let after = apply(store, KvOpView::SetAdd { key, member: subject });
    assert forall|owner: Seq<char>, number: u64| #[trigger]
        on_file(store, owner, number) implies on_file(after, owner, number) by {
        lemma_set_keys_differ(owner, kind);
    }
    assert forall|other: TokenType, member: Seq<char>| #[trigger]
        listed(after, other, member) implies listed(store, other, member) || (other == kind
        && member == subject) by {
        lemma_set_keys_differ(subject, kind);
    }
    assert forall|other: TokenType, member: Seq<char>| #[trigger]
        listed(after, other, member) implies exists|number: u64| #[trigger]
        on_file(after, member, number) by {
        if listed(store, other, member) {
            let number = choose|number: u64| #[trigger] on_file(store, member, number);
            assert(on_file(after, member, number));
        } else {
            assert(on_file(after, subject, revision));
        }
    }
    assert forall|other: TokenType, member: Seq<char>| #[trigger]
        listed(after, other, member) implies variant_of(member) == Some(other) by {
        if listed(store, other, member) {
        }
    }
}

/// A put keeps a consistent store consistent, and so does every beginning of
/// it: whichever of its four writes is the last to succeed, the store is left
/// consistent.
pub proof fn lemma_put_keeps_consistent(
    store: Store,
    subject: Seq<char>,
    revision: u64,
    kind: TokenType,
    decoded: Seq<char>,
    raw: Seq<char>,
    made: int,
)
    requires
        consistent(store),
        variant_of(subject) == Some(kind),
        0 <= made <= 4,
    ensures
        consistent(
            apply_all(store, put_writes(subject, revision, kind, decoded, raw).take(made)),
        ),
{
    let writes = put_writes(subject, revision, kind, decoded, raw);
    let after0 = apply_all(store, writes.take(0));
    let after1 = apply_all(store, writes.take(1));
    let after2 = apply_all(store, writes.take(2));
    let after3 = apply_all(store, writes.take(3));
    let after4 = apply_all(store, writes.take(4));
    assert(writes.take(1).drop_last() =~= writes.take(0));
    assert(writes.take(2).drop_last() =~= writes.take(1));
    assert(writes.take(3).drop_last() =~= writes.take(2));
    assert(writes.take(4).drop_last() =~= writes.take(3));
    assert(after0 == store);
    assert(after1 == apply(after0, writes[0]));
    assert(after2 == apply(after1, writes[1]));
    assert(after3 == apply(after2, writes[2]));
    assert(after4 == apply(after3, writes[3]));
    lemma_set_keeps_consistent(after0, token_key_of(subject, revision), decoded);
    lemma_set_keeps_consistent(after1, token_raw_key_of(subject, revision), raw);
    lemma_revision_keeps_consistent(after2, subject, decimal(revision as nat));
    assert(on_file(after3, subject, revision));
    lemma_listing_keeps_consistent(after3, kind, subject, revision);
}

/// One put as mathematical data: what is stored, under which subject, revision
/// and variant, and how many of its four writes were made before it ended.
pub struct PutView {
    pub subject: Seq<char>,
    pub revision: u64,
    pub kind: TokenType,
    pub decoded: Seq<char>,
    pub raw: Seq<char>,
    pub made: int,
}

/// The writes that a put made: the first `made` of its four.
pub open spec fn writes_of(put: PutView) -> Seq<KvOpView> {
    put_writes(put.subject, put.revision, put.kind, put.decoded, put.raw).take(put.made)
}

/// Whether a put files its subject under the variant that the subject's first
/// character tells, and made no more writes than it has.
pub open spec fn orderly(put: PutView) -> bool {
    variant_of(put.subject) == Some(put.kind) && 0 <= put.made <= 4
}

/// The store after a list of puts, made in order.
pub open spec fn after_puts(store: Store, puts: Seq<PutView>) -> Store
    decreases puts.len(),
{
    if puts.len() == 0 {
        store
    } else {
        apply_all(after_puts(store, puts.drop_last()), writes_of(puts.last()))
    }
}

/// Every store that puts alone have written is consistent, whether the puts
/// were made whole or were cut short after some of their writes: every subject
/// in a variant set has a revision on file, and no subject is in two variant
/// sets.
pub proof fn lemma_history_is_consistent(puts: Seq<PutView>)
    requires
        forall|i: int| 0 <= i < puts.len() ==> orderly(#[trigger] puts[i]),
    ensures
        consistent(after_puts(empty_store(), puts)),
        backed(after_puts(empty_store(), puts)),
        exclusive(after_puts(empty_store(), puts)),
    decreases puts.len(),
{
    if puts.len() == 0 {
        lemma_empty_is_consistent();
    } else {
        let last = puts.last();
        assert forall|i: int| 0 <= i < puts.drop_last().len() implies orderly(
            #[trigger] puts.drop_last()[i],
        ) by {
            assert(puts.drop_last()[i] == puts[i]);
        }
        lemma_history_is_consistent(puts.drop_last());
        assert(orderly(last));
        lemma_put_keeps_consistent(
            after_puts(empty_store(), puts.drop_last()),
            last.subject,
            last.revision,
            last.kind,
            last.decoded,
            last.raw,
            last.made,
        );
    }
    lemma_consistent_is_exclusive(after_puts(empty_store(), puts));
}

/// After a whole put the subject is in the set of its variant and the
/// revision is on file, with the decoded claims and the raw string under the
/// revision's two keys.
pub proof fn lemma_put_stores_token(
    store: Store,
    subject: Seq<char>,
    revision: u64,
    kind: TokenType,
    decoded: Seq<char>,
    raw: Seq<char>,
)
    ensures
        ({
            let after = apply_all(store, put_writes(subject, revision, kind, decoded, raw));
            &&& listed(after, kind, subject)
            &&& on_file(after, subject, revision)
            &&& after.values[token_key_of(subject, revision)] == decoded
            &&& after.values[token_raw_key_of(subject, revision)] == raw
        }),
{
    let writes = put_writes(subject, revision, kind, decoded, raw);
    lemma_four_writes(store, writes);
    lemma_value_keys_differ(subject, revision);
    lemma_set_keys_differ(subject, kind);
}

/// Putting the same token twice leaves the store as putting it once: each of the
/// four writes stores again what is there already.
pub proof fn lemma_put_is_idempotent(
    store: Store,
    subject: Seq<char>,
    revision: u64,
    kind: TokenType,
    decoded: Seq<char>,
    raw: Seq<char>,
)
    ensures
        ({
            let writes = put_writes(subject, revision, kind, decoded, raw);
            apply_all(apply_all(store, writes), writes) == apply_all(store, writes)
        }),
{
    let writes = put_writes(subject, revision, kind, decoded, raw);
    lemma_four_writes(store, writes);
    let once = apply_all(store, writes);
    lemma_four_writes(once, writes);
    let twice = apply_all(once, writes);
    lemma_value_keys_differ(subject, revision);
    lemma_set_keys_differ(subject, kind);
    assert(twice.values =~= once.values);
    assert(twice.sets =~~= once.sets);
}

/// A list of four writes is applied one write after another.
pub proof fn lemma_four_writes(store: Store, writes: Seq<KvOpView>)
    requires
        writes.len() == 4,
    ensures
        apply_all(store, writes) == apply(
            apply(apply(apply(store, writes[0]), writes[1]), writes[2]),
            writes[3],
        ),
{
    assert(writes.take(4) =~= writes);
    assert(writes.take(1).drop_last() =~= writes.take(0));
    assert(writes.take(2).drop_last() =~= writes.take(1));
    assert(writes.take(3).drop_last() =~= writes.take(2));
    assert(writes.take(4).drop_last() =~= writes.take(3));
    assert(apply_all(store, writes.take(0)) == store);
    assert(apply_all(store, writes.take(1)) == apply(apply_all(store, writes.take(0)), writes[0]));
    assert(apply_all(store, writes.take(2)) == apply(apply_all(store, writes.take(1)), writes[1]));
    assert(apply_all(store, writes.take(3)) == apply(apply_all(store, writes.take(2)), writes[2]));
    assert(apply_all(store, writes.take(4)) == apply(apply_all(store, writes.take(3)), writes[3]));
}

/// The key of a revision's decoded claims is not the key of its raw string.
pub proof fn lemma_value_keys_differ(subject: Seq<char>, revision: u64)
    ensures
        token_key_of(subject, revision) != token_raw_key_of(subject, revision),
{
    reveal_strlit(":raw");
    assert(token_raw_key_of(subject, revision).len() == token_key_of(subject, revision).len()
        + 4);
}

/// No key of a value is the key of a set: a key that ends in a digit or in
/// `:raw` is neither the key of a set of revisions nor that of a variant set.
pub proof fn lemma_value_and_set_keys_differ(
    subject: Seq<char>,
    revision: u64,
    owner: Seq<char>,
    kind: TokenType,
)
    ensures
        token_key_of(subject, revision) != revisions_key_of(owner),
        token_key_of(subject, revision) != variant_key_of(kind),
        token_raw_key_of(subject, revision) != revisions_key_of(owner),
        token_raw_key_of(subject, revision) != variant_key_of(kind),
{
    reveal_strlit("gantry:tokens:");
    reveal_strlit(":revisions");
    reveal_strlit(":raw");
    reveal_strlit(":");
    reveal_strlit("gantry:actors");
    reveal_strlit("gantry:operators");
    reveal_strlit("gantry:accounts");
    lemma_decimal_digits(revision as nat);
    let numeral = decimal(revision as nat);
    let key = token_key_of(subject, revision);
    let raw_key = token_raw_key_of(subject, revision);
    let revisions = revisions_key_of(owner);
    let variant = variant_key_of(kind);
    assert(key[7] == 't');
    assert(raw_key[7] == 't');
    assert(variant[7] != 't');
    // A value key ends in a digit, or in "w"; a revisions key ends in "s".
    assert(key[key.len() - 1] == numeral[numeral.len() - 1]);
    assert(is_digit(numeral[numeral.len() - 1]));
    assert(revisions[revisions.len() - 1] == 's');
    assert(raw_key[raw_key.len() - 1] == 'w');
}

/// The key of a raw signed string is never the key of decoded claims: the one
/// ends in `:raw`, the other in a digit.
pub proof fn lemma_raw_key_is_no_token_key(
    subject: Seq<char>,
    revision: u64,
    other_subject: Seq<char>,
    other_revision: u64,
)
    ensures
        token_raw_key_of(subject, revision) != token_key_of(other_subject, other_revision),
{
    reveal_strlit(":raw");
    lemma_decimal_digits(other_revision as nat);
    let raw_key = token_raw_key_of(subject, revision);
    let key = token_key_of(other_subject, other_revision);
    let numeral = decimal(other_revision as nat);
    assert(raw_key[raw_key.len() - 1] == 'w');
    assert(key[key.len() - 1] == numeral[numeral.len() - 1]);
    assert(is_digit(numeral[numeral.len() - 1]));
}

/// Two tokens share the key of their decoded claims only if they have the same
/// subject and the same revision.
pub proof fn lemma_token_key_injective(
    subject: Seq<char>,
    revision: u64,
    other_subject: Seq<char>,
    other_revision: u64,
)
    requires
        token_key_of(subject, revision) == token_key_of(other_subject, other_revision),
    ensures
        subject == other_subject,
        revision == other_revision,
{
    reveal_strlit("gantry:tokens:");
    reveal_strlit(":");
    lemma_decimal_digits(revision as nat);
    lemma_decimal_digits(other_revision as nat);
    let a = decimal(revision as nat);
    let b = decimal(other_revision as nat);
    let key = token_key_of(subject, revision);
    let other = token_key_of(other_subject, other_revision);
    let n = key.len() as int;
    assert(n == 14 + subject.len() + 1 + a.len());
    assert(n == 14 + other_subject.len() + 1 + b.len());
    // The separator before the numeral is the last colon of the key.
    if a.len() < b.len() {
        let at = n - 1 - a.len();
        assert(key[at] == ':');
        assert(other[at] == b[at - 15 - other_subject.len()]);
        assert(is_digit(b[at - 15 - other_subject.len()]));
        assert(false);
    }
    if b.len() < a.len() {
        let at = n - 1 - b.len();
        assert(other[at] == ':');
        assert(key[at] == a[at - 15 - subject.len()]);
        assert(is_digit(a[at - 15 - subject.len()]));
        assert(false);
    }
    assert(a.len() == b.len());
    assert(subject.len() == other_subject.len());
    assert forall|i: int| 0 <= i < a.len() implies a[i] == b[i] by {
        assert(key[15 + subject.len() + i] == a[i]);
        assert(other[15 + subject.len() + i] == b[i]);
    }
    assert(a =~= b);
    assert forall|i: int| 0 <= i < subject.len() implies subject[i] == other_subject[i] by {
        assert(key[14 + i] == subject[i]);
        assert(other[14 + i] == other_subject[i]);
    }
    assert(subject =~= other_subject);
    lemma_decimal_injective(revision as nat, other_revision as nat);
}

} // verus!
