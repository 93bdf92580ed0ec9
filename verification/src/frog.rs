//! The frog, a passive mob that can eat small slimes and magma cubes
//! (<https://minecraft.wiki/w/Frog>): its variant, how the variant is saved and
//! loaded, its goals, and how it reacts to being fed.

use vstd::prelude::*;
use vstd::string::StringSliceAdditionalSpecFns;

verus! {

/// Variant number of the cold frog.
pub const VARIANT_COLD: u8 = 0;

/// Variant number of the temperate frog, the default.
pub const VARIANT_TEMPERATE: u8 = 1;

/// Variant number of the warm frog.
pub const VARIANT_WARM: u8 = 2;

/// Ticks a fed frog stays in love.
pub const LOVE_TICKS: i32 = 600;

/// Items taken from the stack (unless the player is in creative mode) when a frog is fed.
pub const FOOD_CONSUMED: u8 = 1;

/// A frog: its state that this library decides on is its variant.
#[derive(Clone, Copy, Debug, PartialEq, Eq, Structural)]
pub struct FrogEntity {
    /// `VARIANT_COLD`, `VARIANT_TEMPERATE` or `VARIANT_WARM`; any other value
    /// is treated as temperate.
    pub variant: u8,
}

/// The goals a frog runs, in the order of their priority.
#[derive(Clone, Copy, Debug, PartialEq, Eq, Structural)]
pub enum FrogGoal {
    Swim,
    Breed,
    /// Follow a player holding one of the tempting items.
    Tempt,
    FollowParent,
    WanderAround,
    /// Look at a player within six blocks.
    LookAtPlayer,
    RandomLookAround,
}

/// A goal with its priority (lower runs first).
#[derive(Clone, Copy, Debug, PartialEq, Eq, Structural)]
pub struct GoalEntry {
    pub priority: u8,
    pub goal: FrogGoal,
}

/// What feeding a frog does: the items taken from the player's stack (unless
/// the player is in creative mode) and the love ticks the frog gets. The caller
/// also shows hearts and plays the frog's ambient sound.
#[derive(Clone, Copy, Debug, PartialEq, Eq, Structural)]
pub struct Feeding {
    pub items_consumed: u8,
    pub love_ticks: i32,
}

/// The tracked data a frog sends when its data tracker is initialised.
#[derive(Clone, Copy, Debug, PartialEq, Eq, Structural)]
pub struct TrackedDataInit {
    /// Send the baby flag (set) first: the frog is a baby.
    pub send_baby: bool,
    /// The variant value sent under the variant key.
    pub variant: i32,
}

/// The variant number a name stands for: cold and warm by their namespaced or
/// bare names, temperate for anything else.
pub open spec fn spec_variant_from_name(name: Seq<char>) -> u8 {
    if name == "minecraft:cold"@ || name == "cold"@ {
        VARIANT_COLD
    } else if name == "minecraft:warm"@ || name == "warm"@ {
        VARIANT_WARM
    } else {
        VARIANT_TEMPERATE
    }
}

/// The name under which a variant number is saved.
pub open spec fn spec_variant_name(variant: u8) -> Seq<char> {
    if variant == VARIANT_COLD {
        "minecraft:cold"@
    } else if variant == VARIANT_WARM {
        "minecraft:warm"@
    } else {
        "minecraft:temperate"@
    }
}

/// The variant a stored number stands for: unknown numbers are temperate.
pub open spec fn normalized_variant(variant: u8) -> u8 {
    if variant == VARIANT_COLD || variant == VARIANT_WARM {
        variant
    } else {
        VARIANT_TEMPERATE
    }
}

/// The goals of a new frog.
pub open spec fn spec_goals() -> Seq<GoalEntry> {
    seq![
        GoalEntry { priority: 0, goal: FrogGoal::Swim },
        GoalEntry { priority: 1, goal: FrogGoal::Breed },
        GoalEntry { priority: 2, goal: FrogGoal::Tempt },
        GoalEntry { priority: 3, goal: FrogGoal::FollowParent },
        GoalEntry { priority: 4, goal: FrogGoal::WanderAround },
        GoalEntry { priority: 5, goal: FrogGoal::LookAtPlayer },
        GoalEntry { priority: 6, goal: FrogGoal::RandomLookAround },
    ]
}

/// Whether a frog holding-item interaction feeds it.
pub open spec fn spec_accepts_food(
    item_id: u16,
    tempt_items: Seq<u16>,
    breeding_ready: bool,
    in_love: bool,
) -> bool {
    tempt_items.contains(item_id) && breeding_ready && !in_love
}

/// Two strings hold the same characters.
fn str_equal(a: &str, b: &str) -> (equal: bool)
    ensures
        equal == (a@ == b@),
{
    broadcast use vstd::utf8::encode_utf8_decode_utf8;

    let x = a.as_bytes();
    let y = b.as_bytes();
    if x.len() != y.len() {
        return false;
    }
    let mut i: usize = 0;
    while i < x.len()
        invariant
            x@ == a.spec_bytes(),
            y@ == b.spec_bytes(),
            x.len() == y.len(),
            i <= x.len(),
            forall|j: int| 0 <= j < i ==> x@[j] == y@[j],
        decreases x.len() - i,
    {
        if x[i] != y[i] {
            return false;
        }
        i = i + 1;
    }
    assert(x@ =~= y@);
    assert(vstd::utf8::decode_utf8(a.spec_bytes()) == a@);
    true
}

/// The cold names and the warm names are different strings.
proof fn lemma_variant_names_distinct()
    ensures
        "minecraft:cold"@ != "minecraft:warm"@,
        "minecraft:cold"@ != "warm"@,
        "cold"@ != "minecraft:warm"@,
        "cold"@ != "warm"@,
{
    reveal_strlit("minecraft:cold");
    reveal_strlit("cold");
    reveal_strlit("minecraft:warm");
    reveal_strlit("warm");
    assert("minecraft:cold"@[10] != "minecraft:warm"@[10]);
    assert("cold"@[0] != "warm"@[0]);
}

/// The variant number a name stands for.
pub fn variant_from_name(name: &str) -> (variant: u8)
    ensures
        variant == spec_variant_from_name(name@),
        (name@ == "minecraft:cold"@ || name@ == "cold"@) ==> variant == VARIANT_COLD,
        (name@ == "minecraft:warm"@ || name@ == "warm"@) ==> variant == VARIANT_WARM,
        !(name@ == "minecraft:cold"@ || name@ == "cold"@ || name@ == "minecraft:warm"@ || name@
            == "warm"@) ==> variant == VARIANT_TEMPERATE,
{
    proof {
        lemma_variant_names_distinct();
    }
    if str_equal(name, "minecraft:cold") || str_equal(name, "cold") {
        VARIANT_COLD
    } else if str_equal(name, "minecraft:warm") || str_equal(name, "warm") {
        VARIANT_WARM
    } else {
        VARIANT_TEMPERATE
    }
}

/// The name under which a variant number is saved.
pub fn variant_name(variant: u8) -> (name: &'static str)
    ensures
        name@ == spec_variant_name(variant),
        variant == VARIANT_COLD ==> name@ == "minecraft:cold"@,
        variant == VARIANT_WARM ==> name@ == "minecraft:warm"@,
        variant != VARIANT_COLD && variant != VARIANT_WARM ==> name@ == "minecraft:temperate"@,
{
    if variant == VARIANT_COLD {
        "minecraft:cold"
    } else if variant == VARIANT_WARM {
        "minecraft:warm"
    } else {
        "minecraft:temperate"
    }
}

/// Whether `item_id` is one of `tempt_items`.
pub fn is_tempt_item(item_id: u16, tempt_items: &[u16]) -> (found: bool)
    ensures
        found == tempt_items@.contains(item_id),
{
    let mut i: usize = 0;
    while i < tempt_items.len()
        invariant
            i <= tempt_items.len(),
            forall|j: int| 0 <= j < i ==> tempt_items@[j] != item_id,
        decreases tempt_items.len() - i,
    {
        if tempt_items[i] == item_id {
            assert(tempt_items@[i as int] == item_id);
            return true;
        }
        i = i + 1;
    }
    false
}

impl FrogEntity {
    /// A new frog is temperate.
    pub fn new() -> (frog: FrogEntity)
        ensures
            frog.variant == VARIANT_TEMPERATE,
    {
        FrogEntity { variant: VARIANT_TEMPERATE }
    }

    /// The goals a new frog is given, with their priorities.
    pub fn goals() -> (goals: Vec<GoalEntry>)
        ensures
            goals@ == spec_goals(),
            goals@.len() == 7,
            forall|i: int| 0 <= i < goals@.len() ==> #[trigger] goals@[i].priority == i,
    {
        let mut goals: Vec<GoalEntry> = Vec::new();
        goals.push(GoalEntry { priority: 0, goal: FrogGoal::Swim });
        goals.push(GoalEntry { priority: 1, goal: FrogGoal::Breed });
        goals.push(GoalEntry { priority: 2, goal: FrogGoal::Tempt });
        goals.push(GoalEntry { priority: 3, goal: FrogGoal::FollowParent });
        goals.push(GoalEntry { priority: 4, goal: FrogGoal::WanderAround });
        goals.push(GoalEntry { priority: 5, goal: FrogGoal::LookAtPlayer });
        goals.push(GoalEntry { priority: 6, goal: FrogGoal::RandomLookAround });
        assert(goals@ =~= spec_goals());
        goals
    }

    /// The string saved under the `variant` key of the frog's NBT.
    pub fn write_nbt(&self) -> (name: &'static str)
        ensures
            name@ == spec_variant_name(self.variant),
            self.variant == VARIANT_COLD ==> name@ == "minecraft:cold"@,
            self.variant == VARIANT_WARM ==> name@ == "minecraft:warm"@,
            self.variant != VARIANT_COLD && self.variant != VARIANT_WARM ==> name@
                == "minecraft:temperate"@,
    {
        variant_name(self.variant)
    }

    /// Loading: when the NBT holds a `variant` string, the variant becomes the
    /// one it names; otherwise the frog is left as it was.
    pub fn read_nbt_non_mut(&mut self, variant_str: Option<&str>)
        ensures
            match variant_str {
                Some(name) => final(self).variant == spec_variant_from_name(name@),
                None => *final(self) == *old(self),
            },
    {
        if let Some(name) = variant_str {
            self.variant = variant_from_name(name);
        }
    }

    /// Sets the variant by its name (namespaced or bare).
    pub fn mob_set_variant_name(&mut self, name: &str)
        ensures
            final(self).variant == spec_variant_from_name(name@),
    {
        self.variant = variant_from_name(name);
    }

    /// Interaction with a player holding `item_id`: the frog is fed when the
    /// item is one of `tempt_items`, the frog is ready to breed and not already
    /// in love. `None` means the interaction is not handled.
    pub fn mob_interact(
        &self,
        item_id: u16,
        tempt_items: &[u16],
        breeding_ready: bool,
        in_love: bool,
    ) -> (feeding: Option<Feeding>)
        ensures
            feeding is Some <==> spec_accepts_food(item_id, tempt_items@, breeding_ready, in_love),
            feeding is Some <==> (tempt_items@.contains(item_id) && breeding_ready && !in_love),
            feeding matches Some(f) ==> f.items_consumed == FOOD_CONSUMED && f.love_ticks
                == LOVE_TICKS,
    {
        let is_food = is_tempt_item(item_id, tempt_items);
        if is_food && breeding_ready && !in_love {
            Some(Feeding { items_consumed: FOOD_CONSUMED, love_ticks: LOVE_TICKS })
        } else {
            None
        }
    }

    /// Data tracker initialisation: a frog of negative age sends the baby flag,
    /// then every frog sends its variant.
    pub fn mob_init_data_tracker(&self, age: i32) -> (init: TrackedDataInit)
        ensures
            init.send_baby == (age < 0),
            init.variant == self.variant as int,
    {
        TrackedDataInit { send_baby: age < 0, variant: self.variant as i32 }
    }
}

/// Saving a frog and loading the saved name gives back its variant
/// (unknown variant numbers come back as temperate).
pub proof fn lemma_saved_variant_loads_back(variant: u8)
    ensures
        spec_variant_from_name(spec_variant_name(variant)) == normalized_variant(variant),
{
    reveal_strlit("minecraft:cold");
    reveal_strlit("cold");
    reveal_strlit("minecraft:warm");
    reveal_strlit("warm");
    reveal_strlit("minecraft:temperate");
    let name = spec_variant_name(variant);
    if variant != VARIANT_COLD && variant != VARIANT_WARM {
        assert(name[10] != "minecraft:cold"@[10]);
        assert(name[10] != "minecraft:warm"@[10]);
        assert(name.len() != "cold"@.len());
        assert(name.len() != "warm"@.len());
    } else if variant == VARIANT_WARM {
        assert(name[10] != "minecraft:cold"@[10]);
        assert(name.len() != "cold"@.len());
    }
}

/// Any name sets one of the three known variants, and a loaded variant saves
/// under its namespaced name.
pub proof fn lemma_loaded_variant_is_known(name: Seq<char>)
    ensures
        spec_variant_from_name(name) == VARIANT_COLD || spec_variant_from_name(name)
            == VARIANT_TEMPERATE || spec_variant_from_name(name) == VARIANT_WARM,
        normalized_variant(spec_variant_from_name(name)) == spec_variant_from_name(name),
{
}

/// A frog is fed only by one of the tempting items, only when it is ready to
/// breed, and only when it is not already in love; with all three it is fed.
pub proof fn lemma_feeding_conditions(
    item_id: u16,
    tempt_items: Seq<u16>,
    breeding_ready: bool,
    in_love: bool,
)
    ensures
        !(exists|j: int| 0 <= j < tempt_items.len() && tempt_items[j] == item_id)
            ==> !spec_accepts_food(item_id, tempt_items, breeding_ready, in_love),
        !breeding_ready ==> !spec_accepts_food(item_id, tempt_items, breeding_ready, in_love),
        in_love ==> !spec_accepts_food(item_id, tempt_items, breeding_ready, in_love),
        (exists|j: int| 0 <= j < tempt_items.len() && tempt_items[j] == item_id) && breeding_ready
            && !in_love ==> spec_accepts_food(item_id, tempt_items, breeding_ready, in_love),
{
}

/// A bare variant name loads the same variant as its `minecraft:` form.
pub proof fn lemma_bare_name_matches_namespaced(bare: Seq<char>)
    requires
        bare != "minecraft:cold"@,
        bare != "minecraft:warm"@,
    ensures
        spec_variant_from_name(bare) == spec_variant_from_name("minecraft:"@ + bare),
{
    reveal_strlit("minecraft:");
    reveal_strlit("minecraft:cold");
    reveal_strlit("cold");
    reveal_strlit("minecraft:warm");
    reveal_strlit("warm");
    let prefix = "minecraft:"@;
    let full = prefix + bare;
    assert(full.len() == bare.len() + 10);
    assert(full != "cold"@);
    assert(full != "warm"@);
    if bare == "cold"@ {
        assert(full =~= "minecraft:cold"@);
    } else if full == "minecraft:cold"@ {
        assert(full.subrange(10, 14) =~= bare);
        assert(full.subrange(10, 14) =~= "cold"@);
    }
    if bare == "warm"@ {
        assert(full =~= "minecraft:warm"@);
    } else if full == "minecraft:warm"@ {
        assert(full.subrange(10, 14) =~= bare);
        assert(full.subrange(10, 14) =~= "warm"@);
    }
}

} // verus!
