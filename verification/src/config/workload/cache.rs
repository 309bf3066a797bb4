use crate::config::workload::{Distribution, ValueKind};
use vstd::prelude::*;

verus! {

/// The commands a cache keyspace can be driven with.
#[derive(Clone, Copy, Debug, PartialEq, Eq, Structural)]
pub enum Verb {
    Add,
    Get,
    SetValue,
    Delete,
    Replace,
    HashGet,
    HashGetAll,
    HashDelete,
    HashExists,
    HashIncrement,
    HashSet,
    ListPushFront,
    ListPushBack,
    ListFetch,
    ListLength,
    ListPopFront,
    ListPopBack,
    ListRemove,
    Ping,
    SetAdd,
    SetMembers,
    SetRemove,
    SortedSetAdd,
    SortedSetRange,
    SortedSetRemove,
    SortedSetIncrement,
    SortedSetScore,
    SortedSetRank,
}

impl Verb {
    /// Verbs whose requests carry `cardinality` inner keys.
    pub open spec fn spec_supports_cardinality(self) -> bool {
        match self {
            Verb::HashGet | Verb::HashDelete | Verb::HashSet | Verb::ListPushFront
            | Verb::ListPushBack | Verb::SetAdd | Verb::SetRemove | Verb::SortedSetAdd
            | Verb::SortedSetRemove | Verb::SortedSetScore => true,
            _ => false,
        }
    }

    /// Verbs whose `cardinality` inner keys must all differ.
    pub open spec fn spec_needs_distinct(self) -> bool {
        match self {
            Verb::HashSet | Verb::SetAdd | Verb::SetRemove | Verb::SortedSetAdd
            | Verb::SortedSetRemove | Verb::SortedSetScore => true,
            _ => false,
        }
    }

    /// Verbs whose requests draw inner keys (hash fields, list elements,
    /// set members).
    pub open spec fn spec_needs_inner_key(self) -> bool {
        match self {
            Verb::HashGet | Verb::HashDelete | Verb::HashExists | Verb::HashIncrement
            | Verb::HashSet | Verb::ListPushFront | Verb::ListPushBack | Verb::ListRemove
            | Verb::SetAdd | Verb::SetRemove | Verb::SortedSetAdd | Verb::SortedSetRemove
            | Verb::SortedSetIncrement | Verb::SortedSetScore | Verb::SortedSetRank => true,
            _ => false,
        }
    }

    #[verifier::when_used_as_spec(spec_supports_cardinality)]
    pub fn supports_cardinality(self) -> (r: bool)
        ensures
            r == self.spec_supports_cardinality(),
    {
        match self {
            Verb::HashGet | Verb::HashDelete | Verb::HashSet | Verb::ListPushFront
            | Verb::ListPushBack | Verb::SetAdd | Verb::SetRemove | Verb::SortedSetAdd
            | Verb::SortedSetRemove | Verb::SortedSetScore => true,
            _ => false,
        }
    }

    #[verifier::when_used_as_spec(spec_needs_distinct)]
    pub fn needs_distinct(self) -> (r: bool)
        ensures
            r == self.spec_needs_distinct(),
    {
        match self {
            Verb::HashSet | Verb::SetAdd | Verb::SetRemove | Verb::SortedSetAdd
            | Verb::SortedSetRemove | Verb::SortedSetScore => true,
            _ => false,
        }
    }

    /// Only list pushes can truncate the list.
    pub fn supports_truncate(self) -> (r: bool)
        ensures
            r == (self == Verb::ListPushFront || self == Verb::ListPushBack),
    {
        match self {
            Verb::ListPushFront | Verb::ListPushBack => true,
            _ => false,
        }
    }

    /// Only sorted-set ranges take a start.
    pub fn supports_start(self) -> (r: bool)
        ensures
            r == (self == Verb::SortedSetRange),
    {
        match self {
            Verb::SortedSetRange => true,
            _ => false,
        }
    }

    /// Only sorted-set ranges take an end.
    pub fn supports_end(self) -> (r: bool)
        ensures
            r == (self == Verb::SortedSetRange),
    {
        match self {
            Verb::SortedSetRange => true,
            _ => false,
        }
    }

    /// Only sorted-set ranges can select by score.
    pub fn supports_by_score(self) -> (r: bool)
        ensures
            r == (self == Verb::SortedSetRange),
    {
        match self {
            Verb::SortedSetRange => true,
            _ => false,
        }
    }

    #[verifier::when_used_as_spec(spec_needs_inner_key)]
    pub fn needs_inner_key(self) -> (r: bool)
        ensures
            r == self.spec_needs_inner_key(),
    {
        match self {
            Verb::HashGet | Verb::HashDelete | Verb::HashExists | Verb::HashIncrement
            | Verb::HashSet | Verb::ListPushFront | Verb::ListPushBack | Verb::ListRemove
            | Verb::SetAdd | Verb::SetRemove | Verb::SortedSetAdd | Verb::SortedSetRemove
            | Verb::SortedSetIncrement | Verb::SortedSetScore | Verb::SortedSetRank => true,
            _ => false,
        }
    }
}

/// One weighted command of a keyspace.
#[derive(Clone, Copy, Debug, PartialEq, Eq, Structural)]
pub struct Command {
    pub verb: Verb,
    pub weight: usize,
    pub cardinality: usize,
    pub truncate: Option<u32>,
    pub start: Option<i32>,
    pub end: Option<i32>,
    pub by_score: bool,
}

impl Command {
    pub fn verb(&self) -> (r: Verb)
        ensures
            r == self.verb,
    {
        self.verb
    }

    pub fn weight(&self) -> (r: usize)
        ensures
            r == self.weight,
    {
        self.weight
    }

    pub fn cardinality(&self) -> (r: usize)
        ensures
            r == self.cardinality,
    {
        self.cardinality
    }

    pub fn truncate(&self) -> (r: Option<u32>)
        ensures
            r == self.truncate,
    {
        self.truncate
    }

    pub fn start(&self) -> (r: Option<i32>)
        ensures
            r == self.start,
    {
        self.start
    }

    pub fn end(&self) -> (r: Option<i32>)
        ensures
            r == self.end,
    {
        self.end
    }

    pub fn by_score(&self) -> (r: bool)
        ensures
            r == self.by_score,
    {
        self.by_score
    }
}

/// A cache keyspace: its keys, inner keys, values and commands.
#[derive(Clone, Debug)]
pub struct Keyspace {
    pub nkeys: usize,
    pub klen: usize,
    pub key_distribution: Distribution,
    pub weight: usize,
    pub commands: Vec<Command>,
    pub inner_keys_nkeys: Option<usize>,
    pub inner_keys_klen: Option<usize>,
    pub vlen: Option<usize>,
    pub vkind: Option<ValueKind>,
    /// Time to live of the written items, in seconds.
    pub ttl: Option<u64>,
}

impl Keyspace {
    /// The number of keys.
    pub fn nkeys(&self) -> (r: usize)
        ensures
            r == self.nkeys,
    {
        self.nkeys
    }

    /// The length of a key.
    pub fn klen(&self) -> (r: usize)
        ensures
            r == self.klen,
    {
        self.klen
    }

    /// How keys are drawn.
    pub fn key_distribution(&self) -> (r: Distribution)
        ensures
            r == self.key_distribution,
    {
        self.key_distribution
    }

    /// The weight of the keyspace among the components.
    pub fn weight(&self) -> (r: usize)
        ensures
            r == self.weight,
    {
        self.weight
    }

    /// The weighted commands.
    pub fn commands(&self) -> (r: &[Command])
        ensures
            r@ == self.commands@,
    {
        self.commands.as_slice()
    }

    /// The number of inner keys (fields, members, elements), if set.
    pub fn inner_keys_nkeys(&self) -> (r: Option<usize>)
        ensures
            r == self.inner_keys_nkeys,
    {
        self.inner_keys_nkeys
    }

    /// The length of an inner key, if set.
    pub fn inner_keys_klen(&self) -> (r: Option<usize>)
        ensures
            r == self.inner_keys_klen,
    {
        self.inner_keys_klen
    }

    /// The length of a value, if set.
    pub fn vlen(&self) -> (r: Option<usize>)
        ensures
            r == self.vlen,
    {
        self.vlen
    }

    /// The time to live of written items, in seconds, if set.
    pub fn ttl(&self) -> (r: Option<u64>)
        ensures
            r == self.ttl,
    {
        self.ttl
    }

    /// The kind of the values, bytes unless set.
    pub open spec fn spec_vkind(&self) -> ValueKind {
        match self.vkind {
            Some(k) => k,
            None => ValueKind::Bytes,
        }
    }

    pub fn vkind(&self) -> (r: ValueKind)
        ensures
            r == self.spec_vkind(),
    {
        match self.vkind {
            Some(k) => k,
            None => ValueKind::Bytes,
        }
    }
}

/// Why a keyspace was refused.
#[derive(Clone, Copy, Debug, PartialEq, Eq, Structural)]
pub enum KeyspaceError {
    /// A verb that writes values, with byte values, but no `vlen`.
    MissingValueLength(Verb),
    /// A command with a cardinality of zero.
    ZeroCardinality,
    /// A cardinality above one for a verb that takes a single inner key.
    CardinalityNotSupported(Verb),
    /// A truncate of zero.
    ZeroTruncate,
    /// A truncate for a verb that does not truncate.
    TruncateNotSupported(Verb),
    /// A verb that draws inner keys, without `inner_keys_nkeys` and
    /// `inner_keys_klen`.
    MissingInnerKeys(Verb),
}

/// What was noticed of a keyspace without refusing it: an argument that
/// the verb ignores.
#[derive(Clone, Copy, Debug, PartialEq, Eq, Structural)]
pub enum KeyspaceWarning {
    StartNotSupported(Verb),
    EndNotSupported(Verb),
    ByScoreNotSupported(Verb),
}

/// The error `validate` finds for one command, if any, in the order the
/// checks are made.
pub open spec fn command_error(k: Keyspace, c: Command) -> Option<KeyspaceError> {
    if k.vlen is None && k.spec_vkind() == ValueKind::Bytes && (c.verb == Verb::SetValue || c.verb
        == Verb::HashSet) {
        Some(KeyspaceError::MissingValueLength(c.verb))
    } else if c.cardinality == 0 {
        Some(KeyspaceError::ZeroCardinality)
    } else if c.cardinality > 1 && !c.verb.spec_supports_cardinality() {
        Some(KeyspaceError::CardinalityNotSupported(c.verb))
    } else if c.truncate == Some(0u32) {
        Some(KeyspaceError::ZeroTruncate)
    } else if c.truncate is Some && !(c.verb == Verb::ListPushFront || c.verb
        == Verb::ListPushBack) {
        Some(KeyspaceError::TruncateNotSupported(c.verb))
    } else if c.verb.spec_needs_inner_key() && (k.inner_keys_nkeys is None || k.inner_keys_klen
        is None) {
        Some(KeyspaceError::MissingInnerKeys(c.verb))
    } else {
        None
    }
}

/// The warnings of one command, in order.
pub open spec fn command_warnings(c: Command) -> Seq<KeyspaceWarning> {
    (if c.start is Some && c.verb != Verb::SortedSetRange {
        seq![KeyspaceWarning::StartNotSupported(c.verb)]
    } else {
        Seq::empty()
    }) + (if c.end is Some && c.verb != Verb::SortedSetRange {
        seq![KeyspaceWarning::EndNotSupported(c.verb)]
    } else {
        Seq::empty()
    }) + (if c.by_score && c.verb != Verb::SortedSetRange {
        seq![KeyspaceWarning::ByScoreNotSupported(c.verb)]
    } else {
        Seq::empty()
    })
}

/// The warnings of the first `n` commands.
pub open spec fn warnings_upto(cs: Seq<Command>, n: nat) -> Seq<KeyspaceWarning>
    decreases n,
{
    if n == 0 || n > cs.len() {
        Seq::empty()
    } else {
        warnings_upto(cs, (n - 1) as nat) + command_warnings(cs[n - 1])
    }
}

impl Keyspace {
    /// Checks that the keyspace is specified well enough for each of its
    /// verbs, command by command: on success, the arguments that verbs
    /// ignore; on failure, the first error met.
    pub fn validate(&self) -> (r: Result<Vec<KeyspaceWarning>, KeyspaceError>)
        ensures
            r matches Ok(w) ==> {
                &&& forall|i: int|
                    0 <= i < self.commands@.len() ==> command_error(*self, #[trigger] self.commands@[i])
                        is None
                &&& w@ == warnings_upto(self.commands@, self.commands@.len())
            },
            r matches Err(e) ==> exists|i: int|
                0 <= i < self.commands@.len() && command_error(*self, #[trigger] self.commands@[i])
                    == Some(e) && forall|j: int|
                    0 <= j < i ==> command_error(*self, #[trigger] self.commands@[j]) is None,
    {
        let mut warnings: Vec<KeyspaceWarning> = Vec::new();
        let mut i: usize = 0;
        while i < self.commands.len()
            invariant
                i <= self.commands@.len(),
                forall|j: int| 0 <= j < i ==> command_error(*self, #[trigger] self.commands@[j]) is None,
                warnings@ == warnings_upto(self.commands@, i as nat),
            decreases self.commands@.len() - i,
        {
            let c = self.commands[i];
            let verb = c.verb;
            let set_like = match verb {
                Verb::SetValue | Verb::HashSet => true,
                _ => false,
            };
            if self.vlen.is_none() && self.vkind() == ValueKind::Bytes && set_like {
                return Err(KeyspaceError::MissingValueLength(verb));
            }
            if c.cardinality == 0 {
                return Err(KeyspaceError::ZeroCardinality);
            }
            if c.cardinality > 1 && !verb.supports_cardinality() {
                return Err(KeyspaceError::CardinalityNotSupported(verb));
            }
            if let Some(t) = c.truncate {
                if t == 0 {
                    return Err(KeyspaceError::ZeroTruncate);
                }
                if !verb.supports_truncate() {
                    return Err(KeyspaceError::TruncateNotSupported(verb));
                }
            }
            if verb.needs_inner_key() && (self.inner_keys_nkeys.is_none()
                || self.inner_keys_klen.is_none()) {
                return Err(KeyspaceError::MissingInnerKeys(verb));
            }
            let ghost before = warnings@;
            if c.start.is_some() && !verb.supports_start() {
                warnings.push(KeyspaceWarning::StartNotSupported(verb));
            }
            if c.end.is_some() && !verb.supports_end() {
                warnings.push(KeyspaceWarning::EndNotSupported(verb));
            }
            if c.by_score && !verb.supports_by_score() {
                warnings.push(KeyspaceWarning::ByScoreNotSupported(verb));
            }
            assert(warnings@ =~= before + command_warnings(c));
            assert(command_error(*self, c) is None);
            i = i + 1;
        }
        Ok(warnings)
    }
}

} // verus!
