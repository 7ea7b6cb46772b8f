use vstd::prelude::*;
use crate::keyed::Keyed;

verus! {

/// One achievement of a game. `unlocked_date` holds the unix timestamp (in
/// seconds) at which the player unlocked it, or nothing while it is locked.
pub struct GameAchievement {
    pub name: String,
    pub display_name: String,
    pub description: String,
    pub icon: String,
    pub icon_gray: String,
    pub unlocked_date: Option<u32>,
}

impl GameAchievement {
    pub fn new(
        name: String,
        display_name: String,
        description: String,
        icon: String,
        icon_gray: String,
        unlocked_date: Option<u32>,
    ) -> (a: GameAchievement)
        ensures
            a == (GameAchievement {
                name,
                display_name,
                description,
                icon,
                icon_gray,
                unlocked_date,
            }),
    {
        GameAchievement { name, display_name, description, icon, icon_gray, unlocked_date }
    }

    pub fn name(&self) -> (r: &str)
        ensures
            r@ == self.name@,
    {
        self.name.as_str()
    }

    pub fn unlocked_date(&self) -> (r: Option<u32>)
        ensures
            r == self.unlocked_date,
    {
        self.unlocked_date
    }
}

impl Clone for GameAchievement {
    fn clone(&self) -> (r: GameAchievement)
        ensures
            r == *self,
    {
        GameAchievement {
            name: self.name.clone(),
            display_name: self.display_name.clone(),
            description: self.description.clone(),
            icon: self.icon.clone(),
            icon_gray: self.icon_gray.clone(),
            unlocked_date: self.unlocked_date,
        }
    }
}

impl Keyed for GameAchievement {
    type K = Seq<char>;

    open spec fn spec_key(&self) -> Seq<char> {
        self.name@
    }

    fn key_eq(&self, other: &Self) -> (r: bool) {
        self.name == other.name
    }
}

/// How many achievements are unlocked.
pub open spec fn unlocked_count(achievements: Seq<GameAchievement>) -> int
    decreases achievements.len(),
{
    if achievements.len() == 0 {
        0
    } else {
        unlocked_count(achievements.drop_last()) + if achievements.last().unlocked_date is Some {
            1int
        } else {
            0int
        }
    }
}

pub proof fn lemma_unlocked_count_bound(achievements: Seq<GameAchievement>)
    ensures
        0 <= unlocked_count(achievements) <= achievements.len(),
    decreases achievements.len(),
{
    if achievements.len() > 0 {
        lemma_unlocked_count_bound(achievements.drop_last());
    }
}

/// One game of the library snapshot. `playtime` is in minutes; `last_played`
/// is a unix timestamp in seconds.
pub struct Game {
    pub key: u32,
    pub name: String,
    pub image: String,
    pub playtime: u32,
    pub last_played: u32,
    pub link: String,
    pub achievements: Vec<GameAchievement>,
}

/// What a game is mathematically: its fields, with the achievements as a
/// sequence. Snapshot contracts speak of this view, which survives cloning.
pub struct GameView {
    pub key: u32,
    pub name: String,
    pub image: String,
    pub playtime: u32,
    pub last_played: u32,
    pub link: String,
    pub achievements: Seq<GameAchievement>,
}

impl View for Game {
    type V = GameView;

    open spec fn view(&self) -> GameView {
        GameView {
            key: self.key,
            name: self.name,
            image: self.image,
            playtime: self.playtime,
            last_played: self.last_played,
            link: self.link,
            achievements: self.achievements@,
        }
    }
}

/// The views of a snapshot's games.
pub open spec fn game_views(games: Seq<Game>) -> Seq<GameView> {
    games.map_values(|g: Game| g@)
}

impl Game {
    pub fn new(
        key: u32,
        name: String,
        image: String,
        playtime: u32,
        last_played: u32,
        link: String,
        achievements: Vec<GameAchievement>,
    ) -> (g: Game)
        ensures
            g.key == key,
            g.name == name,
            g.image == image,
            g.playtime == playtime,
            g.last_played == last_played,
            g.link == link,
            g.achievements == achievements,
    {
        Game { key, name, image, playtime, last_played, link, achievements }
    }

    pub fn key(&self) -> (r: u32)
        ensures
            r == self.key,
    {
        self.key
    }

    pub fn name(&self) -> (r: &str)
        ensures
            r@ == self.name@,
    {
        self.name.as_str()
    }

    pub fn image(&self) -> (r: &str)
        ensures
            r@ == self.image@,
    {
        self.image.as_str()
    }

    pub fn playtime(&self) -> (r: u32)
        ensures
            r == self.playtime,
    {
        self.playtime
    }

    pub fn last_played(&self) -> (r: u32)
        ensures
            r == self.last_played,
    {
        self.last_played
    }

    pub fn link(&self) -> (r: &str)
        ensures
            r@ == self.link@,
    {
        self.link.as_str()
    }

    pub fn achievements(&self) -> (r: &Vec<GameAchievement>)
        ensures
            r == &self.achievements,
    {
        &self.achievements
    }

    /// How many of this game's achievements the player has unlocked.
    pub fn achievements_unlocked_count(&self) -> (n: usize)
        ensures
            n == unlocked_count(self.achievements@),
    {
        proof {
            lemma_unlocked_count_bound(self.achievements@);
        }
        let mut n: usize = 0;
        let mut i: usize = 0;
        while i < self.achievements.len()
            invariant
                i <= self.achievements@.len(),
                n == unlocked_count(self.achievements@.take(i as int)),
                n <= i,
            decreases self.achievements@.len() - i,
        {
            proof {
                assert(self.achievements@.take(i as int + 1).drop_last() =~= self.achievements@.take(
                    i as int,
                ));
            }
            if self.achievements[i].unlocked_date.is_some() {
                n += 1;
            }
            i += 1;
        }
        proof {
            assert(self.achievements@.take(self.achievements@.len() as int) =~= self.achievements@);
        }
        n
    }
}

impl Clone for Game {
    fn clone(&self) -> (r: Game)
        ensures
            r@ == self@,
    {
        let mut achievements: Vec<GameAchievement> = Vec::new();
        let mut i: usize = 0;
        while i < self.achievements.len()
            invariant
                i <= self.achievements@.len(),
                achievements@.len() == i,
                forall|k: int| 0 <= k < i ==> #[trigger] achievements@[k] == self.achievements@[k],
            decreases self.achievements@.len() - i,
        {
            achievements.push(self.achievements[i].clone());
            i += 1;
        }
        assert(achievements@ =~= self.achievements@);
        Game {
            key: self.key,
            name: self.name.clone(),
            image: self.image.clone(),
            playtime: self.playtime,
            last_played: self.last_played,
            link: self.link.clone(),
            achievements,
        }
    }
}

impl Keyed for Game {
    type K = u32;

    open spec fn spec_key(&self) -> u32 {
        self.key
    }

    fn key_eq(&self, other: &Self) -> (r: bool) {
        self.key == other.key
    }
}

} // verus!
