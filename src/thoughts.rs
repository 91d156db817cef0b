use vstd::prelude::*;

verus! {

/// Whether a thought lifts or weighs on the mind.
#[derive(Clone, Copy, Debug, PartialEq, Eq, Hash, Structural)]
pub enum Emotion {
    Positive,
    Negative,
}

/// The word a thought stands for.
#[derive(Debug, PartialEq, Eq)]
pub enum ThoughtWord {
    Noun(String),
    Verb(String),
}

impl Clone for ThoughtWord {
    fn clone(&self) -> (r: Self)
        ensures
            r == *self,
    {
        match self {
            ThoughtWord::Noun(s) => ThoughtWord::Noun(s.clone()),
            ThoughtWord::Verb(s) => ThoughtWord::Verb(s.clone()),
        }
    }
}

/// A collectible thought: its picture, an optional sound, how strongly it
/// counts, its emotion and its word.
#[derive(Debug, PartialEq, Eq)]
pub struct Thought {
    pub image: String,
    pub audio: Option<String>,
    pub intensity: u32,
    pub emotion: Emotion,
    pub word: ThoughtWord,
}

impl Thought {
    pub fn new(image: String, audio: Option<String>, intensity: u32, emotion: Emotion, word: ThoughtWord) -> (r: Thought)
        ensures
            r == (Thought { image, audio, intensity, emotion, word }),
    {
        Thought { image, audio, intensity, emotion, word }
    }
}

impl Clone for Thought {
    fn clone(&self) -> (r: Self)
        ensures
            r == *self,
    {
        let audio = match &self.audio {
            Some(a) => Some(a.clone()),
            None => None,
        };
        Thought {
            image: self.image.clone(),
            audio,
            intensity: self.intensity,
            emotion: self.emotion,
            word: self.word.clone(),
        }
    }
}

/// Every thought that can be found in the game.
#[derive(Debug)]
pub struct ThoughtLibrary {
    data: Vec<Thought>,
}

/// Relies on rand::random, which draws a value from the thread-local
/// generator; nothing is promised of the value drawn.
pub assume_specification<T>[ rand::random::<T> ]() -> (r: T)
    where
        rand::distributions::Standard: rand::distributions::Distribution<T>,
;

/// Number of thoughts in the library.
pub const LIBRARY_SIZE: usize = 25;

impl View for ThoughtLibrary {
    type V = Seq<Thought>;

    closed spec fn view(&self) -> Seq<Thought> {
        self.data@
    }
}

impl ThoughtLibrary {
    /// The game's thoughts, each of intensity one to three.
    pub fn new() -> (r: ThoughtLibrary)
        ensures
            r@.len() == LIBRARY_SIZE,
            forall|i: int| 0 <= i < r@.len() ==> 1 <= #[trigger] r@[i].intensity <= 3,
    {
        let data = vec![
            Thought::new("thoughts/images/openclipart/abstract_343040.png".to_owned(), None, 1, Emotion::Positive, ThoughtWord::Noun("The House of the Bird".to_owned())),
            Thought::new("thoughts/images/openclipart/death_horse_313177.png".to_owned(), None, 2, Emotion::Negative, ThoughtWord::Noun("Incoming death".to_owned())),
            Thought::new("thoughts/images/openclipart/gamer_grind_214410.png".to_owned(), None, 1, Emotion::Positive, ThoughtWord::Noun("gamer".to_owned())),
            Thought::new("thoughts/images/openclipart/orange_juice_174090.png".to_owned(), None, 1, Emotion::Positive, ThoughtWord::Noun("orange juice".to_owned())),
            Thought::new("thoughts/images/openclipart/grape_juice_343001.png".to_owned(), None, 1, Emotion::Positive, ThoughtWord::Noun("grape juice".to_owned())),
            Thought::new("thoughts/images/openclipart/red_astronaut_279322.png".to_owned(), None, 1, Emotion::Positive, ThoughtWord::Noun("astronaut".to_owned())),
            Thought::new("thoughts/images/openclipart/angry_man_278871.png".to_owned(), None, 1, Emotion::Negative, ThoughtWord::Verb("angers".to_owned())),
            Thought::new("thoughts/images/openclipart/forest_fire_327561.png".to_owned(), None, 2, Emotion::Negative, ThoughtWord::Noun("forest fire".to_owned())),
            Thought::new("thoughts/images/openclipart/lighter_343041.png".to_owned(), None, 1, Emotion::Positive, ThoughtWord::Noun("lighter".to_owned())),
            Thought::new("thoughts/images/openclipart/pain_319678.png".to_owned(), None, 2, Emotion::Negative, ThoughtWord::Noun("pain".to_owned())),
            Thought::new("thoughts/images/openclipart/brain_306149.png".to_owned(), None, 1, Emotion::Positive, ThoughtWord::Noun("brain".to_owned())),
            Thought::new("thoughts/images/openclipart/prismatic_mind_327002.png".to_owned(), None, 3, Emotion::Positive, ThoughtWord::Noun("ascended mind".to_owned())),
            Thought::new("thoughts/images/openclipart/screw_191883.png".to_owned(), None, 1, Emotion::Negative, ThoughtWord::Noun("screw".to_owned())),
            Thought::new("thoughts/images/wikimedia/abstract_deities.jpg".to_owned(), None, 1, Emotion::Positive, ThoughtWord::Noun("deity".to_owned())),
            Thought::new("thoughts/images/wikimedia/bose_einstein.jpg".to_owned(), None, 1, Emotion::Positive, ThoughtWord::Noun("technology".to_owned())),
            Thought::new("thoughts/images/wikimedia/cursed_stick_figures.jpg".to_owned(), None, 2, Emotion::Negative, ThoughtWord::Noun("Them".to_owned())),
            Thought::new("thoughts/images/flickr/aligator.jpg".to_owned(), None, 2, Emotion::Negative, ThoughtWord::Noun("aligator".to_owned())),
            Thought::new("thoughts/images/flickr/chair.jpg".to_owned(), None, 1, Emotion::Negative, ThoughtWord::Noun("chair".to_owned())),
            Thought::new("thoughts/images/flickr/clouds.jpg".to_owned(), None, 1, Emotion::Positive, ThoughtWord::Noun("clouds".to_owned())),
            Thought::new("thoughts/images/flickr/decay.jpg".to_owned(), None, 2, Emotion::Negative, ThoughtWord::Verb("decay".to_owned())),
            Thought::new("thoughts/images/flickr/despair.jpg".to_owned(), None, 2, Emotion::Negative, ThoughtWord::Verb("despair".to_owned())),
            Thought::new("thoughts/images/flickr/fog_man.jpg".to_owned(), None, 1, Emotion::Negative, ThoughtWord::Noun("Him".to_owned())),
            Thought::new("thoughts/images/flickr/lock.jpg".to_owned(), None, 1, Emotion::Positive, ThoughtWord::Noun("lock".to_owned())),
            Thought::new("thoughts/images/flickr/love.jpg".to_owned(), None, 2, Emotion::Positive, ThoughtWord::Verb("love".to_owned())),
            Thought::new("thoughts/images/flickr/nature.jpg".to_owned(), None, 2, Emotion::Positive, ThoughtWord::Noun("nature".to_owned())),
        ];
        ThoughtLibrary { data }
    }

    pub fn n_thoughts(&self) -> (r: usize)
        ensures
            r == self@.len(),
    {
        self.data.len()
    }

    /// A copy of thought `index`.
    pub fn get_thought_by_index(&self, index: usize) -> (r: Thought)
        requires
            index < self@.len(),
        ensures
            r == self@[index as int],
    {
        self.data[index].clone()
    }

    /// The thought that a random `roll` picks: the roll modulo the size of
    /// the library.
    pub fn pick(&self, roll: usize) -> (r: Thought)
        requires
            self@.len() > 0,
        ensures
            r == self@[(roll as int) % (self@.len() as int)],
    {
        let n = self.data.len();
        self.data[roll % n].clone()
    }

    /// A thought drawn at random: one of the library's, whichever the draw.
    pub fn random_thought(&self) -> (r: Thought)
        requires
            self@.len() > 0,
        ensures
            exists|i: int| 0 <= i < self@.len() && r == self@[i],
    {
        let roll: usize = rand::random::<usize>();
        let n = self.n_thoughts();
        let i = roll % n;
        self.get_thought_by_index(i)
    }
}

impl Default for ThoughtLibrary {
    fn default() -> (r: Self)
        ensures
            r@.len() == LIBRARY_SIZE,
    {
        ThoughtLibrary::new()
    }
}

} // verus!
