//! The closed enumerations of the state machine: modes, story progress,
//! places, menu options, and the intents that drive them.

use vstd::prelude::*;

verus! {

/// The mode the session is in. Exactly one is active at a time.
#[derive(Debug, Clone, Copy, PartialEq, Eq, Structural)]
pub enum GameState {
    MainMenu,
    Story,
    Minigame,
    GameOver,
    Heal,
    Shop,
    Inventory,
    Test,
    Mercy,
    Battle,
}

impl Default for GameState {
    /// A session starts in the main menu.
    fn default() -> (state: GameState)
        ensures
            state == GameState::MainMenu,
    {
        GameState::MainMenu
    }
}

/// How far the story has been told.
#[derive(Debug, Clone, Copy, PartialEq, Eq, Structural)]
pub enum StoryState {
    First,
    Second,
    Third,
}

impl Default for StoryState {
    fn default() -> (state: StoryState)
        ensures
            state == StoryState::First,
    {
        StoryState::First
    }
}

impl StoryState {
    /// The position of a chapter in the telling.
    pub open spec fn rank(self) -> int {
        match self {
            StoryState::First => 0,
            StoryState::Second => 1,
            StoryState::Third => 2,
        }
    }
}

/// Where the player is.
#[derive(Debug, Clone, Copy, PartialEq, Eq, Structural)]
pub enum Places {
    Samos,
    SabbiaSamos,
    Tiro,
    ColonneTiro,
    Crotone,
    ScuolaCrotone,
    Babilonia,
    BabiloniaBoss,
    Olimpia,
    Syros,
    Mileto,
}

impl Default for Places {
    fn default() -> (place: Places)
        ensures
            place == Places::Samos,
    {
        Places::Samos
    }
}

/// A way to step through a menu.
#[derive(Debug, Clone, Copy, PartialEq, Eq, Structural)]
pub enum Direction {
    Left,
    Right,
}

/// The battle menu, in the order in which it is laid out.
#[derive(Debug, Clone, Copy, PartialEq, Eq, Structural)]
pub enum FightOption {
    Attack,
    Defend,
    Inventory,
    Mercy,
}

impl Default for FightOption {
    fn default() -> (option: FightOption)
        ensures
            option == FightOption::Attack,
    {
        FightOption::Attack
    }
}

impl FightOption {
    /// The slot of an option, counted from the left.
    pub open spec fn slot(self) -> int {
        match self {
            FightOption::Attack => 0,
            FightOption::Defend => 1,
            FightOption::Inventory => 2,
            FightOption::Mercy => 3,
        }
    }

    /// The option in a slot.
    pub open spec fn at(slot: int) -> FightOption {
        if slot == 0 {
            FightOption::Attack
        } else if slot == 1 {
            FightOption::Defend
        } else if slot == 2 {
            FightOption::Inventory
        } else {
            FightOption::Mercy
        }
    }

    /// The neighbour of an option in a direction, wrapping at both ends.
    pub open spec fn neighbour(self, direction: Direction) -> FightOption {
        match direction {
            Direction::Left => FightOption::at((self.slot() + 3) % 4),
            Direction::Right => FightOption::at((self.slot() + 1) % 4),
        }
    }

    /// Moves the highlight one option in a direction.
    pub fn step(self, direction: Direction) -> (next: FightOption)
        ensures
            next == self.neighbour(direction),
    {
        match direction {
            Direction::Left => match self {
                FightOption::Attack => FightOption::Mercy,
                FightOption::Defend => FightOption::Attack,
                FightOption::Inventory => FightOption::Defend,
                FightOption::Mercy => FightOption::Inventory,
            },
            Direction::Right => match self {
                FightOption::Attack => FightOption::Defend,
                FightOption::Defend => FightOption::Inventory,
                FightOption::Inventory => FightOption::Mercy,
                FightOption::Mercy => FightOption::Attack,
            },
        }
    }
}

/// The shop menu, in the order in which it is laid out.
#[derive(Debug, Clone, Copy, PartialEq, Eq, Structural)]
pub enum ShopOption {
    Buy,
    Sell,
    Inventory,
    Exit,
}

impl Default for ShopOption {
    fn default() -> (option: ShopOption)
        ensures
            option == ShopOption::Buy,
    {
        ShopOption::Buy
    }
}

impl ShopOption {
    /// The slot of an option, counted from the left.
    pub open spec fn slot(self) -> int {
        match self {
            ShopOption::Buy => 0,
            ShopOption::Sell => 1,
            ShopOption::Inventory => 2,
            ShopOption::Exit => 3,
        }
    }

    /// The option in a slot.
    pub open spec fn at(slot: int) -> ShopOption {
        if slot == 0 {
            ShopOption::Buy
        } else if slot == 1 {
            ShopOption::Sell
        } else if slot == 2 {
            ShopOption::Inventory
        } else {
            ShopOption::Exit
        }
    }

    /// The neighbour of an option in a direction, wrapping at both ends.
    pub open spec fn neighbour(self, direction: Direction) -> ShopOption {
        match direction {
            Direction::Left => ShopOption::at((self.slot() + 3) % 4),
            Direction::Right => ShopOption::at((self.slot() + 1) % 4),
        }
    }

    /// Moves the highlight one option in a direction.
    pub fn step(self, direction: Direction) -> (next: ShopOption)
        ensures
            next == self.neighbour(direction),
    {
        match direction {
            Direction::Left => match self {
                ShopOption::Buy => ShopOption::Exit,
                ShopOption::Sell => ShopOption::Buy,
                ShopOption::Inventory => ShopOption::Sell,
                ShopOption::Exit => ShopOption::Inventory,
            },
            Direction::Right => match self {
                ShopOption::Buy => ShopOption::Sell,
                ShopOption::Sell => ShopOption::Inventory,
                ShopOption::Inventory => ShopOption::Exit,
                ShopOption::Exit => ShopOption::Buy,
            },
        }
    }
}

/// A discrete command from the player.
#[derive(Debug, Clone, Copy, PartialEq, Eq, Structural)]
pub enum Intent {
    /// Move the highlight of the open menu.
    Navigate(Direction),
    /// Carry out the highlighted option.
    Confirm,
    /// Leave an overlay for the mode it was opened from.
    Back,
    /// Read on: the next boss line, the next chapter, the outcome of a mercy attempt.
    Continue,
    /// Stop the run loop.
    Quit,
    /// Enter the healing place, or heal when already there.
    Heal,
    /// Begin the story from the main menu.
    StartStory,
    /// Pick a fight while the story is told.
    StartBattle,
    /// Enter the shop.
    OpenShop,
    /// Look into the inventory.
    OpenInventory,
    /// Enter the test mode.
    OpenTest,
    /// Return to the main menu.
    OpenMenu,
    /// Give the adventure up.
    EndGame,
}

/// What the run loop does after an intent was handled.
#[derive(Debug, Clone, Copy, PartialEq, Eq, Structural)]
pub enum Control {
    Continue,
    Stop,
}

/// The battle menu is a ring of four: a step to either side and one back
/// lead to the same option, and four steps to one side lead all the way round.
pub proof fn lemma_fight_menu_wraps(option: FightOption, direction: Direction)
    ensures
        option.neighbour(Direction::Left).neighbour(Direction::Right) == option,
        option.neighbour(Direction::Right).neighbour(Direction::Left) == option,
        option.neighbour(direction).neighbour(direction).neighbour(direction).neighbour(direction)
            == option,
        option.neighbour(direction) != option,
        FightOption::Attack.neighbour(Direction::Left) == FightOption::Mercy,
        FightOption::Mercy.neighbour(Direction::Right) == FightOption::Attack,
{
}

/// The shop menu is a ring of four: a step to either side and one back lead
/// to the same option, and four steps to one side lead all the way round.
pub proof fn lemma_shop_menu_wraps(option: ShopOption, direction: Direction)
    ensures
        option.neighbour(Direction::Left).neighbour(Direction::Right) == option,
        option.neighbour(Direction::Right).neighbour(Direction::Left) == option,
        option.neighbour(direction).neighbour(direction).neighbour(direction).neighbour(direction)
            == option,
        option.neighbour(direction) != option,
        ShopOption::Buy.neighbour(Direction::Left) == ShopOption::Exit,
        ShopOption::Exit.neighbour(Direction::Right) == ShopOption::Buy,
{
}

} // verus!
