use vstd::prelude::*;

verus! {

/// The species of a bot.
#[derive(PartialEq, Eq, Structural, Clone, Copy, Debug, Hash)]
pub enum BotKind {
    Mutant,
    Parasite,
    Zombie,
}

impl BotKind {
    pub fn description(self) -> (r: &'static str)
        ensures
            self == BotKind::Mutant ==> r@ == "Mutant"@,
            self == BotKind::Parasite ==> r@ == "Parasite"@,
            self == BotKind::Zombie ==> r@ == "Zombie"@,
    {
        match self {
            BotKind::Mutant => "Mutant",
            BotKind::Parasite => "Parasite",
            BotKind::Zombie => "Zombie",
        }
    }
}

/// Whom a species attacks.
#[derive(PartialEq, Eq, Structural, Clone, Copy, Debug, Hash)]
pub enum BotHostility {
    Everyone,
    OtherSpecies,
    Player,
}

/// One melee animation of a species and what a swing of it does.
pub struct AttackAnimationDefinition {
    /// The animation resource.
    pub path: String,
    /// When, in milliseconds into the clip, the weapon sticks to the victim.
    pub stick_timestamp: u32,
    /// When, in milliseconds into the clip, the hit lands.
    pub timestamp: u32,
    /// Damage dealt by one hit.
    pub damage: u32,
    /// Playback speed in thousandths.
    pub speed: u32,
}

/// The immutable configuration of one species.
pub struct BotDefinition {
    /// Model scale in thousandths.
    pub scale: u32,
    pub health: i64,
    /// Walking speed in millimetres per second.
    pub walk_speed: u32,
    pub model: String,
    pub head_name: String,
    pub can_use_weapons: bool,
    /// Distance in millimetres under which the bot fights hand to hand.
    pub close_combat_distance: u32,
    pub pain_sounds: Vec<String>,
    pub scream_sounds: Vec<String>,
    pub idle_sounds: Vec<String>,
    pub attack_sounds: Vec<String>,
    pub hostility: BotHostility,
    pub idle_animation: String,
    pub scream_animation: String,
    pub attack_animations: Vec<AttackAnimationDefinition>,
    pub walk_animation: String,
    pub aim_animation: String,
    pub dying_animation: String,
}

/// Why a table of definitions was refused.
#[derive(PartialEq, Eq, Structural, Clone, Copy, Debug)]
pub enum DefinitionError {
    /// Two entries describe the same species.
    DuplicateKind(BotKind),
    /// No entry describes this species.
    MissingKind(BotKind),
}

/// The kinds of `entries`, in order.
pub open spec fn kinds_of(entries: Seq<(BotKind, BotDefinition)>) -> Seq<BotKind> {
    entries.map_values(|e: (BotKind, BotDefinition)| e.0)
}

/// No species appears twice among `ks`.
pub open spec fn kinds_unique(ks: Seq<BotKind>) -> bool {
    forall|i: int, j: int| 0 <= i < j < ks.len() ==> ks[i] != ks[j]
}

/// Every species appears among `ks`.
pub open spec fn covers_all_kinds(ks: Seq<BotKind>) -> bool {
    forall|k: BotKind| ks.contains(k)
}

fn has_kind(entries: &Vec<(BotKind, BotDefinition)>, kind: BotKind) -> (r: bool)
    ensures
        r == kinds_of(entries@).contains(kind),
{
    let mut i: usize = 0;
    while i < entries.len()
        invariant
            i <= entries@.len(),
            forall|a: int| 0 <= a < i ==> entries@[a].0 != kind,
        decreases entries@.len() - i,
    {
        if entries[i].0 == kind {
            proof {
                assert(kinds_of(entries@)[i as int] == kind);
            }
            return true;
        }
        i = i + 1;
    }
    proof {
        if kinds_of(entries@).contains(kind) {
            let k = choose|k: int| 0 <= k < kinds_of(entries@).len() && kinds_of(entries@)[k] == kind;
            assert(entries@[k].0 == kind);
        }
    }
    false
}

/// The read-only registry of species definitions, keyed by kind. It is built
/// once, before any bot spawns, and only read afterwards.
pub struct BotDefinitionsContainer {
    entries: Vec<(BotKind, BotDefinition)>,
}

impl BotDefinitionsContainer {
    pub closed spec fn kinds(&self) -> Seq<BotKind> {
        kinds_of(self.entries@)
    }

    /// The definition registered for `kind`, if any.
    pub closed spec fn entry(&self, kind: BotKind) -> Option<BotDefinition> {
        lookup(self.entries@, kind)
    }

    /// Every species has exactly one entry.
    pub closed spec fn wf(&self) -> bool {
        kinds_unique(self.kinds()) && covers_all_kinds(self.kinds())
    }

    /// Builds the registry from its entries; refuses a table that names a
    /// species twice, or leaves one out: both are configuration errors.
    pub fn new(entries: Vec<(BotKind, BotDefinition)>) -> (r: Result<BotDefinitionsContainer, DefinitionError>)
        ensures
            r is Ok <==> kinds_unique(kinds_of(entries@)) && covers_all_kinds(kinds_of(entries@)),
            r matches Ok(c) ==> c.wf() && c.kinds() == kinds_of(entries@)
                && forall|k: BotKind| #[trigger] c.entry(k) == lookup(entries@, k),
            r matches Err(DefinitionError::DuplicateKind(k)) ==> exists|i: int, j: int|
                0 <= i < j < entries@.len() && entries@[i].0 == k && entries@[j].0 == k,
            r matches Err(DefinitionError::MissingKind(k)) ==> kinds_unique(kinds_of(entries@))
                && !kinds_of(entries@).contains(k),
    {
        let n = entries.len();
        let mut i: usize = 0;
        while i < n
            invariant
                n == entries@.len(),
                i <= n,
                forall|a: int, b: int| 0 <= a < b < n && a < i ==> entries@[a].0 != entries@[b].0,
            decreases n - i,
        {
            let mut j: usize = i + 1;
            while j < n
                invariant
                    n == entries@.len(),
                    i < n,
                    i + 1 <= j <= n,
                    forall|a: int, b: int| 0 <= a < b < n && a < i ==> entries@[a].0 != entries@[b].0,
                    forall|b: int| i < b < j ==> entries@[i as int].0 != entries@[b].0,
                decreases n - j,
            {
                if entries[i].0 == entries[j].0 {
                    proof {
                        let ks = kinds_of(entries@);
                        assert(ks[i as int] == ks[j as int]);
                    }
                    return Err(DefinitionError::DuplicateKind(entries[i].0));
                }
                j = j + 1;
            }
            i = i + 1;
        }
        proof {
            assert(kinds_unique(kinds_of(entries@)));
        }
        if !has_kind(&entries, BotKind::Mutant) {
            return Err(DefinitionError::MissingKind(BotKind::Mutant));
        }
        if !has_kind(&entries, BotKind::Parasite) {
            return Err(DefinitionError::MissingKind(BotKind::Parasite));
        }
        if !has_kind(&entries, BotKind::Zombie) {
            return Err(DefinitionError::MissingKind(BotKind::Zombie));
        }
        proof {
            assert forall|k: BotKind| kinds_of(entries@).contains(k) by {
                match k {
                    BotKind::Mutant => {},
                    BotKind::Parasite => {},
                    BotKind::Zombie => {},
                }
            }
        }
        Ok(BotDefinitionsContainer { entries })
    }

    /// The definition of `kind`, found in a registry that covers every
    /// species.
    pub fn definition(&self, kind: BotKind) -> (r: &BotDefinition)
        requires
            self.wf(),
        ensures
            self.entry(kind) == Some(*r),
    {
        match self.get(kind) {
            Some(d) => d,
            None => {
                proof {
                    assert(self.kinds().contains(kind));
                }
                &self.entries[0].1
            },
        }
    }

    /// The definition of `kind`; `None` where the table has none.
    pub fn get(&self, kind: BotKind) -> (r: Option<&BotDefinition>)
        ensures
            match r {
                Some(d) => self.entry(kind) == Some(*d),
                None => self.entry(kind) is None,
            },
            r is Some <==> self.kinds().contains(kind),
    {
        let mut i: usize = 0;
        proof {
            assert(self.entries@.skip(0) =~= self.entries@);
        }
        while i < self.entries.len()
            invariant
                i <= self.entries@.len(),
                forall|a: int| 0 <= a < i ==> self.entries@[a].0 != kind,
                lookup(self.entries@, kind) == lookup(self.entries@.skip(i as int), kind),
            decreases self.entries@.len() - i,
        {
            proof {
                let rest = self.entries@.skip(i as int);
                assert(rest[0] == self.entries@[i as int]);
                assert(rest.drop_first() =~= self.entries@.skip(i + 1));
            }
            if self.entries[i].0 == kind {
                proof {
                    assert(self.kinds()[i as int] == kind);
                }
                return Some(&self.entries[i].1);
            }
            i = i + 1;
        }
        proof {
            assert(self.entries@.skip(i as int).len() == 0);
            if self.kinds().contains(kind) {
                let k = choose|k: int| 0 <= k < self.kinds().len() && self.kinds()[k] == kind;
                assert(self.entries@[k].0 == kind);
            }
        }
        None
    }
}

/// The definition that the first entry of `kind` among `s` carries.
pub open spec fn lookup(s: Seq<(BotKind, BotDefinition)>, kind: BotKind) -> Option<BotDefinition>
    decreases s.len(),
{
    if s.len() == 0 {
        None
    } else if s[0].0 == kind {
        Some(s[0].1)
    } else {
        lookup(s.drop_first(), kind)
    }
}

} // verus!
