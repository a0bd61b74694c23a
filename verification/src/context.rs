//! The registry of codecs: which codecs there are, and which one a name or a
//! file extension resolves to.
//!
//! A codec is registered with its functions and loaded when it is first
//! resolved. Loading may fail; a codec that failed to load is not found, and
//! is not tried again.

use vstd::prelude::*;
use crate::codec::{SquashCodec, SquashCodecFuncs, SquashCodecImpl};
use crate::status::SquashStatus;
use crate::copy::{lemma_copy_loaded, squash_copy_loaded, SquashCopy, SQUASH_COPY_PRIORITY};
use crate::text::squash_text_equal;

verus! {

/// A codec in the registry.
pub struct SquashProvider<F: SquashCodecFuncs> {
    name: String,
    extension: Option<String>,
    priority: u32,
    funcs: Option<F>,
    codec: Option<SquashCodec<F>>,
}

/// How far a codec in the registry has come.
pub ghost enum SquashProviderState<F: SquashCodecFuncs> {
    /// The codec has been registered and never resolved.
    Registered(F),
    /// The codec has been loaded.
    Loaded(SquashCodec<F>),
    /// The codec failed to load.
    Unavailable,
}

/// What the registry holds of a codec.
pub ghost struct SquashProviderView<F: SquashCodecFuncs> {
    /// The name under which the codec is found.
    pub name: Seq<char>,
    /// The file extension under which the codec is found, if it has one.
    pub extension: Option<Seq<char>>,
    /// The priority of the codec among those of the same name.
    pub priority: u32,
    /// How far the codec has come.
    pub state: SquashProviderState<F>,
}

impl<F: SquashCodecFuncs> SquashProviderView<F> {
    /// Whether the codec is found under `key`, taken as a file extension if
    /// `by_extension` is set and as a name otherwise.
    pub open spec fn answers(self, key: Seq<char>, by_extension: bool) -> bool {
        if by_extension {
            self.extension == Some(key)
        } else {
            self.name == key
        }
    }

    /// Whether the entry is well formed: a codec that has been loaded is
    /// well formed, and has the name, the extension and the priority under
    /// which it was registered.
    pub open spec fn wf(self) -> bool {
        self.state matches SquashProviderState::Loaded(codec) ==> {
            &&& codec.wf()
            &&& codec.name() == self.name
            &&& codec.extension() == self.extension
            &&& codec.priority() == self.priority
        }
    }
}

impl<F: SquashCodecFuncs> View for SquashProvider<F> {
    type V = SquashProviderView<F>;

    closed spec fn view(&self) -> SquashProviderView<F> {
        SquashProviderView {
            name: self.name@,
            extension: match self.extension {
                Some(extension) => Some(extension@),
                None => None,
            },
            priority: self.priority,
            state: match (self.funcs, self.codec) {
                (_, Some(codec)) => SquashProviderState::Loaded(codec),
                (Some(funcs), None) => SquashProviderState::Registered(funcs),
                (None, None) => SquashProviderState::Unavailable,
            },
        }
    }
}

/// Which of the first `upto` codecs of `providers` the key resolves to: of
/// those that are found under the key, the one of the highest priority, and
/// of several of that priority the one that was registered first.
pub open spec fn squash_context_best<F: SquashCodecFuncs>(
    providers: Seq<SquashProviderView<F>>,
    key: Seq<char>,
    by_extension: bool,
    upto: int,
) -> Option<int>
    decreases upto,
{
    if upto <= 0 {
        None
    } else {
        let before = squash_context_best(providers, key, by_extension, upto - 1);
        let last = upto - 1;
        if providers[last].answers(key, by_extension) && (match before {
            Some(best) => providers[best].priority < providers[last].priority,
            None => true,
        }) {
            Some(last)
        } else {
            before
        }
    }
}

/// What `squash_context_best` picks is found under the key, no codec that is
/// found under the key has a higher priority, and none of the same priority
/// was registered before it. It picks a codec whenever one is found.
pub proof fn lemma_context_best<F: SquashCodecFuncs>(
    providers: Seq<SquashProviderView<F>>,
    key: Seq<char>,
    by_extension: bool,
    upto: int,
)
    requires
        0 <= upto <= providers.len(),
    ensures
        match squash_context_best(providers, key, by_extension, upto) {
            Some(best) => {
                &&& 0 <= best < upto
                &&& providers[best].answers(key, by_extension)
                &&& forall|i: int|
                    0 <= i < upto && (#[trigger] providers[i]).answers(key, by_extension) ==> {
                        ||| providers[i].priority < providers[best].priority
                        ||| providers[i].priority == providers[best].priority && best <= i
                    }
            },
            None => forall|i: int|
                0 <= i < upto ==> !(#[trigger] providers[i]).answers(key, by_extension),
        },
    decreases upto,
{
    if upto > 0 {
        lemma_context_best(providers, key, by_extension, upto - 1);
    }
}

/// The registry of codecs.
pub struct SquashContext<F: SquashCodecFuncs> {
    providers: Vec<SquashProvider<F>>,
}

impl<F: SquashCodecFuncs> SquashContext<F> {
    /// The codecs of the registry, in the order in which they were
    /// registered.
    pub closed spec fn view(&self) -> Seq<SquashProviderView<F>> {
        Seq::new(self.providers@.len(), |i: int| self.providers@[i]@)
    }

    /// Whether the registry is well formed: each of its entries is.
    pub open spec fn wf(&self) -> bool {
        forall|i: int| 0 <= i < self@.len() ==> (#[trigger] self@[i]).wf()
    }

    /// Which codec `name` resolves to.
    pub open spec fn best(&self, key: Seq<char>, by_extension: bool) -> Option<int> {
        squash_context_best(self@, key, by_extension, self@.len() as int)
    }

    /// An empty registry.
    pub fn new() -> (context: SquashContext<F>)
        ensures
            context.wf(),
            context@.len() == 0,
    {
        SquashContext { providers: Vec::new() }
    }

    /// The number of codecs in the registry.
    pub fn len(&self) -> (count: usize)
        ensures
            count == self@.len(),
    {
        self.providers.len()
    }

    /// The name of the codec that was registered as the `index`-th, counting
    /// from 0; nothing if fewer codecs have been registered.
    pub fn get_name_at(&self, index: usize) -> (name: Option<&str>)
        ensures
            match name {
                Some(name) => index < self@.len() && name@ == self@[index as int].name,
                None => index >= self@.len(),
            },
    {
        if index < self.providers.len() {
            Some(self.providers[index].name.as_str())
        } else {
            None
        }
    }

    /// Registers a codec under `name` and, if it has one, under the file
    /// extension `extension`, with its priority among the codecs of the same
    /// name. The codec is loaded when it is first resolved.
    pub fn add_codec(&mut self, name: &str, extension: Option<&str>, priority: u32, funcs: F)
        requires
            old(self).wf(),
        ensures
            final(self).wf(),
            final(self)@ == old(self)@.push(
                SquashProviderView {
                    name: name@,
                    extension: match extension {
                        Some(extension) => Some(extension@),
                        None => None,
                    },
                    priority,
                    state: SquashProviderState::Registered(funcs),
                },
            ),
    {
        let provider = SquashProvider {
            name: name.to_owned(),
            extension: match extension {
                Some(extension) => Some(extension.to_owned()),
                None => None,
            },
            priority,
            funcs: Some(funcs),
            codec: None,
        };
        let ghost added = provider@;
        self.providers.push(provider);
        proof {
            assert(self@ =~= old(self)@.push(added));
        }
    }

    /// Which codec `key` resolves to.
    fn pick(&self, key: &str, by_extension: bool) -> (chosen: Option<usize>)
        ensures
            match chosen {
                Some(i) => self.best(key@, by_extension) == Some(i as int) && i < self@.len(),
                None => self.best(key@, by_extension) is None,
            },
    {
        let mut chosen: Option<usize> = None;
        let mut i: usize = 0;
        proof {
            lemma_context_best(self@, key@, by_extension, self@.len() as int);
        }
        while i < self.providers.len()
            invariant
                i <= self.providers@.len(),
                self@.len() == self.providers@.len(),
                match chosen {
                    Some(best) => squash_context_best(self@, key@, by_extension, i as int) == Some(
                        best as int,
                    ) && best < i,
                    None => squash_context_best(self@, key@, by_extension, i as int) is None,
                },
            decreases self.providers@.len() - i,
        {
            let provider = &self.providers[i];
            let answers: bool = if by_extension {
                match &provider.extension {
                    Some(extension) => squash_text_equal(extension.as_str(), key),
                    None => false,
                }
            } else {
                squash_text_equal(provider.name.as_str(), key)
            };
            if answers {
                let better: bool = match chosen {
                    Some(best) => {
                        self.providers[best].priority < provider.priority
                    },
                    None => true,
                };
                if better {
                    chosen = Some(i);
                }
            }
            i = i + 1;
        }
        chosen
    }
}

/// What resolving a key leaves in a registry that held `before`, when the
/// key resolves to the codec at `best` and `found` is what came of it.
///
/// A codec that had been registered and never resolved has been loaded, or
/// has failed to load; nothing else has changed.
pub open spec fn squash_context_resolved<F: SquashCodecFuncs>(
    before: Seq<SquashProviderView<F>>,
    best: Option<int>,
    found: Option<SquashCodec<F>>,
) -> Seq<SquashProviderView<F>> {
    match best {
        Some(i) => if before[i].state is Registered {
            before.update(
                i,
                SquashProviderView {
                    state: match found {
                        Some(codec) => SquashProviderState::Loaded(codec),
                        None => SquashProviderState::Unavailable,
                    },
                    ..before[i]
                },
            )
        } else {
            before
        },
        None => before,
    }
}

/// Whether `found` is what resolving a key may give in a registry that held
/// `before`, when the key resolves to the codec at `best`.
///
/// Where no codec is found under the key, nothing is found. A codec that has
/// been loaded is found, the same at every call. A codec that failed to load
/// is not found. A codec that is resolved for the first time is made from
/// what `init_codec` of its functions gives, with the name, the extension
/// and the priority with which it was registered; it is found if it could be
/// made.
pub open spec fn squash_context_finds<F: SquashCodecFuncs>(
    before: Seq<SquashProviderView<F>>,
    best: Option<int>,
    found: Option<SquashCodec<F>>,
) -> bool {
    match best {
        Some(i) => match before[i].state {
            SquashProviderState::Registered(funcs) => exists|
                table: Result<SquashCodecImpl, SquashStatus>,
                made: Result<SquashCodec<F>, SquashStatus>,
            |
                {
                    &&& #[trigger] F::init_codec.ensures((&funcs,), table)
                    &&& #[trigger] SquashCodec::loaded(
                        made,
                        before[i].name,
                        before[i].extension,
                        before[i].priority,
                        funcs,
                        table,
                    )
                    &&& found == match made {
                        Ok(codec) => Some(codec),
                        Err(_) => None,
                    }
                },
            SquashProviderState::Loaded(codec) => found == Some(codec),
            SquashProviderState::Unavailable => found is None,
        },
        None => found is None,
    }
}

impl<F: SquashCodecFuncs> SquashContext<F> {
    /// Resolves `key` to a codec, and loads the codec if it has not been
    /// resolved before.
    fn resolve(&mut self, key: &str, by_extension: bool) -> (found: Option<&SquashCodec<F>>)
        requires
            old(self).wf(),
        ensures
            final(self).wf(),
            squash_context_finds(
                old(self)@,
                old(self).best(key@, by_extension),
                match found {
                    Some(codec) => Some(*codec),
                    None => None,
                },
            ),
            final(self)@ == squash_context_resolved(
                old(self)@,
                old(self).best(key@, by_extension),
                match found {
                    Some(codec) => Some(*codec),
                    None => None,
                },
            ),
    {
        let ghost before = self@;
        let i: usize = match self.pick(key, by_extension) {
            Some(i) => i,
            None => {
                return None;
            },
        };
        let ghost mut made: Option<Result<SquashCodec<F>, SquashStatus>> = None;
        let provider = &mut self.providers[i];
        if provider.codec.is_none() {
            match provider.funcs.take() {
                Some(funcs) => {
                    let loaded = match &provider.extension {
                        Some(extension) => SquashCodec::load(
                            provider.name.as_str(),
                            Some(extension.as_str()),
                            provider.priority,
                            funcs,
                        ),
                        None => SquashCodec::load(
                            provider.name.as_str(),
                            None,
                            provider.priority,
                            funcs,
                        ),
                    };
                    proof {
                        made = Some(loaded);
                    }
                    match loaded {
                        Ok(codec) => {
                            provider.codec = Some(codec);
                        },
                        Err(_) => {},
                    }
                },
                None => {},
            }
        }
        proof {
            assert forall|k: int| 0 <= k < self@.len() implies (#[trigger] self@[k]).wf() by {
                if k != i {
                    assert(self@[k] == before[k]);
                }
            }
            if let SquashProviderState::Registered(funcs) = before[i as int].state {
                let loaded = made->0;
                let table = choose|table: Result<SquashCodecImpl, SquashStatus>|
                    #[trigger] F::init_codec.ensures((&funcs,), table) && SquashCodec::loaded(
                        loaded,
                        before[i as int].name,
                        before[i as int].extension,
                        before[i as int].priority,
                        funcs,
                        table,
                    );
                assert(F::init_codec.ensures((&funcs,), table) && SquashCodec::loaded(
                    loaded,
                    before[i as int].name,
                    before[i as int].extension,
                    before[i as int].priority,
                    funcs,
                    table,
                ));
            }
        }
        match &self.providers[i].codec {
            Some(codec) => Some(codec),
            None => None,
        }
    }

    /// The codec of the name `codec`: of the codecs registered under that
    /// name the one of the highest priority, loaded. Nothing if there is no
    /// codec of that name, or if the codec fails or has failed to load.
    pub fn get_codec(&mut self, codec: &str) -> (found: Option<&SquashCodec<F>>)
        requires
            old(self).wf(),
        ensures
            final(self).wf(),
            squash_context_finds(
                old(self)@,
                old(self).best(codec@, false),
                match found {
                    Some(codec) => Some(*codec),
                    None => None,
                },
            ),
            final(self)@ == squash_context_resolved(
                old(self)@,
                old(self).best(codec@, false),
                match found {
                    Some(codec) => Some(*codec),
                    None => None,
                },
            ),
            found matches Some(it) ==> it.wf() && it.name() == codec@,
    {
        proof {
            lemma_context_best(self@, codec@, false, self@.len() as int);
        }
        self.resolve(codec, false)
    }

    /// The codec for the file extension `extension`: of the codecs
    /// registered under that extension the one of the highest priority,
    /// loaded. Nothing if there is no codec for that extension, or if the
    /// codec fails or has failed to load.
    pub fn get_codec_from_extension(&mut self, extension: &str) -> (found: Option<
        &SquashCodec<F>,
    >)
        requires
            old(self).wf(),
        ensures
            final(self).wf(),
            squash_context_finds(
                old(self)@,
                old(self).best(extension@, true),
                match found {
                    Some(codec) => Some(*codec),
                    None => None,
                },
            ),
            final(self)@ == squash_context_resolved(
                old(self)@,
                old(self).best(extension@, true),
                match found {
                    Some(codec) => Some(*codec),
                    None => None,
                },
            ),
            found matches Some(it) ==> it.wf() && it.extension() == Some(extension@),
    {
        proof {
            lemma_context_best(self@, extension@, true, self@.len() as int);
        }
        self.resolve(extension, true)
    }
}

/// What the registry of the codecs that the library itself brings holds
/// when it is new: the `copy` codec, registered.
pub open spec fn squash_context_default() -> Seq<SquashProviderView<SquashCopy>> {
    seq![
        SquashProviderView {
            name: "copy"@,
            extension: None,
            priority: SQUASH_COPY_PRIORITY,
            state: SquashProviderState::Registered(SquashCopy {  }),
        },
    ]
}

/// In the registry of the codecs that the library itself brings, the name
/// `copy` resolves to the `copy` codec, and the codec loads: it is found.
pub proof fn lemma_context_default(found: Option<SquashCodec<SquashCopy>>)
    requires
        squash_context_finds(
            squash_context_default(),
            squash_context_best(squash_context_default(), "copy"@, false, 1),
            found,
        ),
    ensures
        squash_context_best(squash_context_default(), "copy"@, false, 1) == Some(0int),
        found matches Some(codec) && squash_copy_loaded(&codec) && codec.name() == "copy"@,
{
    let context = squash_context_default();
    assert(squash_context_best(context, "copy"@, false, 0) is None);
    let funcs = SquashCopy {  };
    let (table, made) = choose|
        table: Result<SquashCodecImpl, SquashStatus>,
        made: Result<SquashCodec<SquashCopy>, SquashStatus>,
    |
        {
            &&& #[trigger] SquashCopy::init_codec.ensures((&funcs,), table)
            &&& #[trigger] SquashCodec::loaded(
                made,
                context[0].name,
                context[0].extension,
                context[0].priority,
                funcs,
                table,
            )
            &&& found == match made {
                Ok(codec) => Some(codec),
                Err(_) => None,
            }
        };
    lemma_copy_loaded(made, "copy"@, None, SQUASH_COPY_PRIORITY, table);
}

impl SquashContext<SquashCopy> {
    /// The registry of the codecs that the library itself brings: the
    /// `copy` codec.
    pub fn get_default() -> (context: SquashContext<SquashCopy>)
        ensures
            context.wf(),
            context@ == squash_context_default(),
    {
        let mut context = SquashContext::new();
        context.add_codec("copy", None, SQUASH_COPY_PRIORITY, SquashCopy::new());
        context
    }
}

} // verus!
