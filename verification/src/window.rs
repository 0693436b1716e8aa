use vstd::prelude::*;

verus! {

/// The identity of a capture window: its title, and optionally its window
/// class and the name of its owning process.
#[derive(Debug, Clone)]
pub struct Window {
    pub name: String,
    pub class: Option<String>,
    pub process: Option<String>,
}

/// The mathematical value of a `Window`: each text field as a character
/// sequence.
pub ghost struct WindowV {
    pub name: Seq<char>,
    pub class: Option<Seq<char>>,
    pub process: Option<Seq<char>>,
}

impl View for Window {
    type V = WindowV;

    open spec fn view(&self) -> WindowV {
        WindowV {
            name: self.name@,
            class: match self.class {
                Some(c) => Some(c@),
                None => None,
            },
            process: match self.process {
                Some(p) => Some(p@),
                None => None,
            },
        }
    }
}

/// The window identity in the encoding the backend's window-bound sources
/// consume: `name:class:process`, colon-separated, with exactly two colons,
/// and an absent class or process left as an empty segment.
pub open spec fn spec_window_id(w: WindowV) -> Seq<char> {
    w.name + seq![':'] + (match w.class {
        Some(c) => c,
        None => Seq::<char>::empty(),
    }) + seq![':'] + (match w.process {
        Some(p) => p,
        None => Seq::<char>::empty(),
    })
}

/// The shape of the window identity: the name, the class-or-empty segment
/// and the process-or-empty segment stand in order, separated by exactly two
/// colons, whichever optional fields are absent. The encoding is a pure
/// function of the window's fields, so repeated calls on one window agree.
pub proof fn lemma_window_id_segments(w: WindowV)
    ensures
        ({
            let c = match w.class {
                Some(c) => c,
                None => Seq::<char>::empty(),
            };
            let p = match w.process {
                Some(p) => p,
                None => Seq::<char>::empty(),
            };
            let id = spec_window_id(w);
            &&& id.len() == w.name.len() + c.len() + p.len() + 2
            &&& id.subrange(0, w.name.len() as int) == w.name
            &&& id[w.name.len() as int] == ':'
            &&& id.subrange(w.name.len() as int + 1, w.name.len() as int + 1 + c.len() as int)
                == c
            &&& id[w.name.len() as int + 1 + c.len() as int] == ':'
            &&& id.subrange(w.name.len() as int + c.len() as int + 2, id.len() as int) == p
        }),
{
    let c = match w.class {
        Some(c) => c,
        None => Seq::<char>::empty(),
    };
    let p = match w.process {
        Some(p) => p,
        None => Seq::<char>::empty(),
    };
    let id = spec_window_id(w);
    assert(id.subrange(0, w.name.len() as int) =~= w.name);
    assert(id.subrange(w.name.len() as int + 1, w.name.len() as int + 1 + c.len() as int) =~= c);
    assert(id.subrange(w.name.len() as int + c.len() as int + 2, id.len() as int) =~= p);
}

impl Window {
    pub fn new(name: &str, class: Option<String>, process: Option<String>) -> (r: Window)
        ensures
            r@.name == name@,
            r@.class == (match class {
                Some(c) => Some(c@),
                None => None::<Seq<char>>,
            }),
            r@.process == (match process {
                Some(p) => Some(p@),
                None => None::<Seq<char>>,
            }),
    {
        Window { name: name.to_owned(), class, process }
    }

    pub fn name(&self) -> (r: &str)
        ensures
            r@ == self@.name,
    {
        self.name.as_str()
    }

    pub fn class(&self) -> (r: Option<&String>)
        ensures
            r is Some == self@.class is Some,
            r matches Some(c) ==> Some(c@) == self@.class,
    {
        self.class.as_ref()
    }

    pub fn process(&self) -> (r: Option<&String>)
        ensures
            r is Some == self@.process is Some,
            r matches Some(p) ==> Some(p@) == self@.process,
    {
        self.process.as_ref()
    }

    /// Builds the window identity the backend consumes. The result is a pure
    /// function of the window's fields, so repeated calls on equal windows
    /// yield equal encodings.
    pub fn get_libobs_window_id(&self) -> (r: String)
        ensures
            r@ == spec_window_id(self@),
    {
        let mut window_id = String::new();
        window_id.append(self.name.as_str());
        window_id.append(":");
        if let Some(class) = &self.class {
            window_id.append(class.as_str());
        }
        window_id.append(":");
        if let Some(process) = &self.process {
            window_id.append(process.as_str());
        }
        proof {
            reveal_strlit(":");
            assert(":"@ =~= seq![':']);
            assert(window_id@ =~= spec_window_id(self@));
        }
        window_id
    }
}

} // verus!
