//! The states a creature graphic is drawn in.
use vstd::prelude::*;
use crate::text::{case_converted, convert_case, str_eq, string_of, to_uppercase, uppercase, CaseBoundaries, TextCase};

verus! {

/// The state (or condition of display) a graphic is drawn for.
#[derive(Clone, Debug, PartialEq)]
pub enum State<S = String> {
    Empty,
    Default,
    Child,
    Baby,
    Animated,
    Corpse,
    ListIcon,
    Portrait,
    TrainedHunter,
    TrainedWar,
    Skeleton,
    SkeletonWithSkull,
    Vermin,
    VerminAlt,
    SwarmSmall,
    SwarmMedium,
    SwarmLarge,
    LightVermin,
    LightVerminAlt,
    LightSwarmSmall,
    LightSwarmMedium,
    LightSwarmLarge,
    Remains,
    Hive,
    Custom(S),
}

impl View for State<String> {
    type V = State<Seq<char>>;

    open spec fn view(&self) -> State<Seq<char>> {
        match self {
            State::Empty => State::Empty,
            State::Default => State::Default,
            State::Child => State::Child,
            State::Baby => State::Baby,
            State::Animated => State::Animated,
            State::Corpse => State::Corpse,
            State::ListIcon => State::ListIcon,
            State::Portrait => State::Portrait,
            State::TrainedHunter => State::TrainedHunter,
            State::TrainedWar => State::TrainedWar,
            State::Skeleton => State::Skeleton,
            State::SkeletonWithSkull => State::SkeletonWithSkull,
            State::Vermin => State::Vermin,
            State::VerminAlt => State::VerminAlt,
            State::SwarmSmall => State::SwarmSmall,
            State::SwarmMedium => State::SwarmMedium,
            State::SwarmLarge => State::SwarmLarge,
            State::LightVermin => State::LightVermin,
            State::LightVerminAlt => State::LightVerminAlt,
            State::LightSwarmSmall => State::LightSwarmSmall,
            State::LightSwarmMedium => State::LightSwarmMedium,
            State::LightSwarmLarge => State::LightSwarmLarge,
            State::Remains => State::Remains,
            State::Hive => State::Hive,
            State::Custom(s) => State::Custom(s@),
        }
    }
}

/// The raw token of a state.
pub open spec fn state_name(x: State<Seq<char>>) -> Seq<char> {
    match x {
        State::Empty => "(none)"@,
        State::Default => "DEFAULT"@,
        State::Child => "CHILD"@,
        State::Baby => "BABY"@,
        State::Animated => "ANIMATED"@,
        State::Corpse => "CORPSE"@,
        State::ListIcon => "LIST_ICON"@,
        State::Portrait => "PORTRAIT"@,
        State::TrainedHunter => "TRAINED_HUNTER"@,
        State::TrainedWar => "TRAINED_WAR"@,
        State::Skeleton => "SKELETON"@,
        State::SkeletonWithSkull => "SKELETON_WITH_SKULL"@,
        State::Vermin => "VERMIN"@,
        State::VerminAlt => "VERMIN_ALT"@,
        State::SwarmSmall => "SWARM_SMALL"@,
        State::SwarmMedium => "SWARM_MEDIUM"@,
        State::SwarmLarge => "SWARM_LARGE"@,
        State::LightVermin => "LIGHT_VERMIN"@,
        State::LightVerminAlt => "LIGHT_VERMIN_ALT"@,
        State::LightSwarmSmall => "LIGHT_SWARM_SMALL"@,
        State::LightSwarmMedium => "LIGHT_SWARM_MEDIUM"@,
        State::LightSwarmLarge => "LIGHT_SWARM_LARGE"@,
        State::Remains => "REMAINS"@,
        State::Hive => "HIVE"@,
        State::Custom(s) => case_converted(s, CaseBoundaries::Space, TextCase::UpperSnake),
    }
}

/// The state a raw token names; tokens are compared in upper case.
pub open spec fn state_from(s: Seq<char>) -> State<Seq<char>> {
    let up = uppercase(s);
    if up == "DEFAULT"@ {
        State::Default
    } else if up == "CHILD"@ {
        State::Child
    } else if up == "BABY"@ {
        State::Baby
    } else if up == "ANIMATED"@ {
        State::Animated
    } else if up == "CORPSE"@ {
        State::Corpse
    } else if up == "LIST_ICON"@ {
        State::ListIcon
    } else if up == "PORTRAIT"@ {
        State::Portrait
    } else if up == "TRAINED_HUNTER"@ {
        State::TrainedHunter
    } else if up == "TRAINED_WAR"@ {
        State::TrainedWar
    } else if up == "SKELETON"@ {
        State::Skeleton
    } else if up == "SKELETON_WITH_SKULL"@ {
        State::SkeletonWithSkull
    } else if up == "VERMIN"@ {
        State::Vermin
    } else if up == "VERMIN_ALT"@ {
        State::VerminAlt
    } else if up == "SWARM_SMALL"@ {
        State::SwarmSmall
    } else if up == "SWARM_MEDIUM"@ {
        State::SwarmMedium
    } else if up == "SWARM_LARGE"@ {
        State::SwarmLarge
    } else if up == "LIGHT_VERMIN"@ {
        State::LightVermin
    } else if up == "LIGHT_VERMIN_ALT"@ {
        State::LightVerminAlt
    } else if up == "LIGHT_SWARM_SMALL"@ {
        State::LightSwarmSmall
    } else if up == "LIGHT_SWARM_MEDIUM"@ {
        State::LightSwarmMedium
    } else if up == "LIGHT_SWARM_LARGE"@ {
        State::LightSwarmLarge
    } else if up == "HIVE"@ {
        State::Hive
    } else if up == "REMAINS"@ {
        State::Remains
    } else if up == "(none)"@ {
        State::Empty
    } else {
        State::Custom(uppercase(up))
    }
}

impl State {
    /// The raw token of this state.
    pub fn name(&self) -> (r: String)
        ensures
            r@ == state_name(self@),
    {
        match self {
            State::Empty => string_of("(none)"),
            State::Default => string_of("DEFAULT"),
            State::Child => string_of("CHILD"),
            State::Baby => string_of("BABY"),
            State::Animated => string_of("ANIMATED"),
            State::Corpse => string_of("CORPSE"),
            State::ListIcon => string_of("LIST_ICON"),
            State::Portrait => string_of("PORTRAIT"),
            State::TrainedHunter => string_of("TRAINED_HUNTER"),
            State::TrainedWar => string_of("TRAINED_WAR"),
            State::Skeleton => string_of("SKELETON"),
            State::SkeletonWithSkull => string_of("SKELETON_WITH_SKULL"),
            State::Vermin => string_of("VERMIN"),
            State::VerminAlt => string_of("VERMIN_ALT"),
            State::SwarmSmall => string_of("SWARM_SMALL"),
            State::SwarmMedium => string_of("SWARM_MEDIUM"),
            State::SwarmLarge => string_of("SWARM_LARGE"),
            State::LightVermin => string_of("LIGHT_VERMIN"),
            State::LightVerminAlt => string_of("LIGHT_VERMIN_ALT"),
            State::LightSwarmSmall => string_of("LIGHT_SWARM_SMALL"),
            State::LightSwarmMedium => string_of("LIGHT_SWARM_MEDIUM"),
            State::LightSwarmLarge => string_of("LIGHT_SWARM_LARGE"),
            State::Remains => string_of("REMAINS"),
            State::Hive => string_of("HIVE"),
            State::Custom(s) => convert_case(s.as_str(), CaseBoundaries::Space, TextCase::UpperSnake),
        }
    }

    /// The state a raw token names.
    pub fn from(string: String) -> (r: Self)
        ensures
            r@ == state_from(string@),
    {
        let up = to_uppercase(string.as_str());
        if str_eq(up.as_str(), "DEFAULT") {
            State::Default
        } else if str_eq(up.as_str(), "CHILD") {
            State::Child
        } else if str_eq(up.as_str(), "BABY") {
            State::Baby
        } else if str_eq(up.as_str(), "ANIMATED") {
            State::Animated
        } else if str_eq(up.as_str(), "CORPSE") {
            State::Corpse
        } else if str_eq(up.as_str(), "LIST_ICON") {
            State::ListIcon
        } else if str_eq(up.as_str(), "PORTRAIT") {
            State::Portrait
        } else if str_eq(up.as_str(), "TRAINED_HUNTER") {
            State::TrainedHunter
        } else if str_eq(up.as_str(), "TRAINED_WAR") {
            State::TrainedWar
        } else if str_eq(up.as_str(), "SKELETON") {
            State::Skeleton
        } else if str_eq(up.as_str(), "SKELETON_WITH_SKULL") {
            State::SkeletonWithSkull
        } else if str_eq(up.as_str(), "VERMIN") {
            State::Vermin
        } else if str_eq(up.as_str(), "VERMIN_ALT") {
            State::VerminAlt
        } else if str_eq(up.as_str(), "SWARM_SMALL") {
            State::SwarmSmall
        } else if str_eq(up.as_str(), "SWARM_MEDIUM") {
            State::SwarmMedium
        } else if str_eq(up.as_str(), "SWARM_LARGE") {
            State::SwarmLarge
        } else if str_eq(up.as_str(), "LIGHT_VERMIN") {
            State::LightVermin
        } else if str_eq(up.as_str(), "LIGHT_VERMIN_ALT") {
            State::LightVerminAlt
        } else if str_eq(up.as_str(), "LIGHT_SWARM_SMALL") {
            State::LightSwarmSmall
        } else if str_eq(up.as_str(), "LIGHT_SWARM_MEDIUM") {
            State::LightSwarmMedium
        } else if str_eq(up.as_str(), "LIGHT_SWARM_LARGE") {
            State::LightSwarmLarge
        } else if str_eq(up.as_str(), "HIVE") {
            State::Hive
        } else if str_eq(up.as_str(), "REMAINS") {
            State::Remains
        } else if str_eq(up.as_str(), "(none)") {
            State::Empty
        } else {
            State::Custom(to_uppercase(up.as_str()))
        }
    }

    /// The predefined states offered for selection, in display order.
    pub fn iterator() -> (r: Vec<Self>)
        ensures
            r@ == seq![State::<String>::Default, State::<String>::Child, State::<String>::Baby, State::<String>::Animated, State::<String>::Corpse, State::<String>::ListIcon, State::<String>::Portrait, State::<String>::TrainedHunter, State::<String>::TrainedWar, State::<String>::Skeleton, State::<String>::SkeletonWithSkull, State::<String>::Vermin, State::<String>::Remains, State::<String>::Hive, State::<String>::VerminAlt, State::<String>::SwarmSmall, State::<String>::SwarmMedium, State::<String>::SwarmLarge, State::<String>::LightVermin, State::<String>::LightVerminAlt, State::<String>::LightSwarmSmall, State::<String>::LightSwarmMedium, State::<String>::LightSwarmLarge],
    {
        let mut r: Vec<Self> = Vec::new();
        r.push(State::Default);
        r.push(State::Child);
        r.push(State::Baby);
        r.push(State::Animated);
        r.push(State::Corpse);
        r.push(State::ListIcon);
        r.push(State::Portrait);
        r.push(State::TrainedHunter);
        r.push(State::TrainedWar);
        r.push(State::Skeleton);
        r.push(State::SkeletonWithSkull);
        r.push(State::Vermin);
        r.push(State::Remains);
        r.push(State::Hive);
        r.push(State::VerminAlt);
        r.push(State::SwarmSmall);
        r.push(State::SwarmMedium);
        r.push(State::SwarmLarge);
        r.push(State::LightVermin);
        r.push(State::LightVerminAlt);
        r.push(State::LightSwarmSmall);
        r.push(State::LightSwarmMedium);
        r.push(State::LightSwarmLarge);
        assert(r@ =~= seq![State::<String>::Default, State::<String>::Child, State::<String>::Baby, State::<String>::Animated, State::<String>::Corpse, State::<String>::ListIcon, State::<String>::Portrait, State::<String>::TrainedHunter, State::<String>::TrainedWar, State::<String>::Skeleton, State::<String>::SkeletonWithSkull, State::<String>::Vermin, State::<String>::Remains, State::<String>::Hive, State::<String>::VerminAlt, State::<String>::SwarmSmall, State::<String>::SwarmMedium, State::<String>::SwarmLarge, State::<String>::LightVermin, State::<String>::LightVerminAlt, State::<String>::LightSwarmSmall, State::<String>::LightSwarmMedium, State::<String>::LightSwarmLarge]);
        r
    }
}

/// Whether two states are the same.
pub fn same_state(a: &State, b: &State) -> (r: bool)
    ensures
        r == (a@ == b@),
{
    match (a, b) {
        (State::Empty, State::Empty) => true,
        (State::Default, State::Default) => true,
        (State::Child, State::Child) => true,
        (State::Baby, State::Baby) => true,
        (State::Animated, State::Animated) => true,
        (State::Corpse, State::Corpse) => true,
        (State::ListIcon, State::ListIcon) => true,
        (State::Portrait, State::Portrait) => true,
        (State::TrainedHunter, State::TrainedHunter) => true,
        (State::TrainedWar, State::TrainedWar) => true,
        (State::Skeleton, State::Skeleton) => true,
        (State::SkeletonWithSkull, State::SkeletonWithSkull) => true,
        (State::Vermin, State::Vermin) => true,
        (State::VerminAlt, State::VerminAlt) => true,
        (State::SwarmSmall, State::SwarmSmall) => true,
        (State::SwarmMedium, State::SwarmMedium) => true,
        (State::SwarmLarge, State::SwarmLarge) => true,
        (State::LightVermin, State::LightVermin) => true,
        (State::LightVerminAlt, State::LightVerminAlt) => true,
        (State::LightSwarmSmall, State::LightSwarmSmall) => true,
        (State::LightSwarmMedium, State::LightSwarmMedium) => true,
        (State::LightSwarmLarge, State::LightSwarmLarge) => true,
        (State::Remains, State::Remains) => true,
        (State::Hive, State::Hive) => true,
        (State::Custom(x), State::Custom(y)) => str_eq(x.as_str(), y.as_str()),
        _ => false,
    }
}

} // verus!
