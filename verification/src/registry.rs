//! The plugins that the binary offers, in the order in which the host counts
//! them, and by the module that implements them.

use crate::types::{plugin_reply, ApiVersion, Error, Int, PluginVersion, RawMessage};
use std::sync::Arc;
use vstd::hash_map::StringHashMap;
use vstd::prelude::*;

verus! {

/// Another handle on what `shared` points to, from `Arc::clone`: what it points to
/// is the same value. Handles are equal here if their values are, so the contract
/// does not say that the two share one allocation, which they do.
#[verifier::external_body]
pub(crate) fn share<T>(shared: &Arc<T>) -> (handle: Arc<T>)
    ensures
        handle == *shared,
{
    Arc::clone(shared)
}

/// A plugin as it was registered. `P` is the plugin's instance, which outlives
/// the registry's lock while a call into it runs; `S` and `M` are the two
/// functions by which the host reaches it.
pub struct PluginDescriptor<P, S, M> {
    pub plugin_index: usize,
    pub module_name: &'static str,
    pub name: &'static str,
    pub api_version: ApiVersion,
    pub plugin_version: PluginVersion,
    pub instance: Arc<P>,
    pub set_host: S,
    pub main_entry: M,
}

impl<P, S, M> PluginDescriptor<P, S, M> {
    /// The descriptor holds these values.
    pub open spec fn describes(
        self,
        plugin_index: usize,
        module_name: &'static str,
        name: &'static str,
        api_version: ApiVersion,
        plugin_version: PluginVersion,
        instance: P,
        set_host: S,
        main_entry: M,
    ) -> bool {
        &&& self.plugin_index == plugin_index
        &&& self.module_name == module_name
        &&& self.name == name
        &&& self.api_version == api_version
        &&& self.plugin_version == plugin_version
        &&& *self.instance == instance
        &&& self.set_host == set_host
        &&& self.main_entry == main_entry
    }

    pub fn new(
        plugin_index: usize,
        module_name: &'static str,
        name: &'static str,
        api_version: ApiVersion,
        plugin_version: PluginVersion,
        instance: P,
        set_host: S,
        main_entry: M,
    ) -> (plugin: Self)
        ensures
            plugin.describes(
                plugin_index,
                module_name,
                name,
                api_version,
                plugin_version,
                instance,
                set_host,
                main_entry,
            ),
    {
        PluginDescriptor {
            plugin_index,
            module_name,
            name,
            api_version,
            plugin_version,
            instance: Arc::new(instance),
            set_host,
            main_entry,
        }
    }
}

/// The registered plugins in order, and for each module the place of its plugin.
#[verifier::ext_equal]
pub struct RegistryView<P, S, M> {
    pub plugins: Seq<PluginDescriptor<P, S, M>>,
    pub modules: Map<Seq<char>, usize>,
}

impl<P, S, M> RegistryView<P, S, M> {
    pub open spec fn empty() -> Self {
        RegistryView { plugins: Seq::empty(), modules: Map::empty() }
    }

    /// Each module leads to a registered plugin.
    pub open spec fn wf(self) -> bool {
        forall|module: Seq<char>| #[trigger]
            self.modules.contains_key(module) ==> self.modules[module] < self.plugins.len()
    }

    /// Each plugin knows its place.
    pub open spec fn in_place(self) -> bool {
        forall|i: int|
            0 <= i < self.plugins.len() ==> (#[trigger] self.plugins[i]).plugin_index == i
    }

    /// The registry once `plugin` has been added at its end.
    pub open spec fn added(self, plugin: PluginDescriptor<P, S, M>) -> Self {
        RegistryView {
            plugins: self.plugins.push(plugin),
            modules: self.modules.insert(plugin.module_name@, self.plugins.len() as usize),
        }
    }

    /// The instance of the plugin that stands for `module`.
    pub open spec fn plugin_for_module(self, module: Seq<char>) -> Option<Arc<P>> {
        if self.modules.contains_key(module) && self.modules[module] < self.plugins.len() {
            Some(self.plugins[self.modules[module] as int].instance)
        } else {
            None
        }
    }
}

pub struct Registry<P, S, M> {
    plugins: Vec<PluginDescriptor<P, S, M>>,
    plugin_modules: StringHashMap<usize>,
}

impl<P, S, M> View for Registry<P, S, M> {
    type V = RegistryView<P, S, M>;

    closed spec fn view(&self) -> RegistryView<P, S, M> {
        RegistryView { plugins: self.plugins@, modules: self.plugin_modules@ }
    }
}

impl<P, S, M> Registry<P, S, M> {
    #[verifier::type_invariant]
    spec fn inv(self) -> bool {
        self@.wf()
    }
}

impl<P, S, M> Default for Registry<P, S, M> {
    fn default() -> (registry: Self)
        ensures
            registry@ == RegistryView::<P, S, M>::empty(),
    {
        Registry { plugins: Vec::new(), plugin_modules: StringHashMap::new() }
    }
}

impl<P, S, M> Registry<P, S, M> {
    pub fn new() -> (registry: Self)
        ensures
            registry@ == RegistryView::<P, S, M>::empty(),
            registry@.wf(),
            registry@.in_place(),
    {
        Self::default()
    }

    /// Adds a plugin behind those that are registered, and returns its place. It
    /// stands for its module from now on, also where another one did so far.
    pub fn add(
        &mut self,
        module_name: &'static str,
        name: &'static str,
        api_version: ApiVersion,
        plugin_version: PluginVersion,
        instance: P,
        set_host: S,
        main_entry: M,
    ) -> (plugin_index: usize)
        ensures
            plugin_index == old(self)@.plugins.len(),
            final(self)@ == old(self)@.added(final(self)@.plugins.last()),
            final(self)@.plugins.last().describes(
                plugin_index,
                module_name,
                name,
                api_version,
                plugin_version,
                instance,
                set_host,
                main_entry,
            ),
            final(self)@.plugins == old(self)@.plugins.push(final(self)@.plugins.last()),
            final(self)@.plugins.last().plugin_index == plugin_index,
            final(self)@.plugins.last().module_name == module_name,
            final(self)@.plugins.last().name == name,
            final(self)@.plugins.last().api_version == api_version,
            final(self)@.plugins.last().plugin_version == plugin_version,
            *final(self)@.plugins.last().instance == instance,
            final(self)@.plugins.last().set_host == set_host,
            final(self)@.plugins.last().main_entry == main_entry,
            final(self)@.wf(),
            old(self)@.in_place() ==> final(self)@.in_place(),
    {
        proof {
            use_type_invariant(&*self);
        }
        let mut taken = Registry::new();
        std::mem::swap(self, &mut taken);
        let Registry { mut plugins, mut plugin_modules } = taken;
        let plugin_index: usize = plugins.len();
        plugin_modules.insert(module_name.to_owned(), plugin_index);
        let plugin = PluginDescriptor::new(
            plugin_index,
            module_name,
            name,
            api_version,
            plugin_version,
            instance,
            set_host,
            main_entry,
        );
        plugins.push(plugin);
        assert forall|module: Seq<char>| #[trigger]
            plugin_modules@.contains_key(module) implies plugin_modules@[module]
            < plugins@.len() by {
            assert(module == module_name@ || old(self)@.modules.contains_key(module));
        }
        *self = Registry { plugins, plugin_modules };
        plugin_index
    }

    /// How many plugins there are, as the host counts them.
    pub fn count(&self) -> (count: Int)
        ensures
            count == self@.plugins.len() as Int,
            self@.plugins.len() <= Int::MAX ==> count == self@.plugins.len(),
    {
        self.plugins.len() as Int
    }

    pub fn get_plugin_mut(&mut self, index: usize) -> (plugin: &mut PluginDescriptor<P, S, M>)
        requires
            index < old(self)@.plugins.len(),
        ensures
            *plugin == old(self)@.plugins[index as int],
            final(self)@ == (RegistryView {
                plugins: old(self)@.plugins.update(index as int, *final(plugin)),
                modules: old(self)@.modules,
            }),
            final(self)@.wf(),
    {
        proof {
            use_type_invariant(&*self);
            assert forall|changed: Registry<P, S, M>|
                changed.plugin_modules == self.plugin_modules && changed.plugins@.len()
                    == self.plugins@.len() implies #[trigger] changed.inv() by {
                assert(changed@.modules == self@.modules);
            }
        }
        &mut self.plugins[index]
    }

    pub fn get_plugin(&self, index: usize) -> (plugin: &PluginDescriptor<P, S, M>)
        requires
            index < self@.plugins.len(),
        ensures
            *plugin == self@.plugins[index as int],
    {
        &self.plugins[index]
    }

    /// The plugin that the host asks for by its number.
    pub fn ofx_plugin_ptr(&self, index: Int) -> (plugin: &PluginDescriptor<P, S, M>)
        requires
            0 <= index < self@.plugins.len(),
        ensures
            *plugin == self@.plugins[index as int],
    {
        &self.plugins[index as usize]
    }

    /// Hands `message` to the plugin that stands for `plugin_module`, by way of
    /// `run`, and returns what comes back. `enter` enters the plugin's dispatch gate
    /// before, and `leave` leaves it afterwards, whatever the plugin returned. The
    /// guard that `enter` hands out is what `run` is called under and what `leave`
    /// takes back.
    pub fn dispatch<H, E, G>(
        &mut self,
        plugin_module: &str,
        message: RawMessage<H>,
        enter: impl FnOnce(&P) -> G,
        run: impl FnOnce(&P, &G, RawMessage<H>) -> Result<Int, E>,
        leave: impl FnOnce(&P, G),
    ) -> (result: Result<Int, Error<E>>)
        requires
            old(self)@.plugin_for_module(plugin_module@) matches Some(plugin) ==> {
                &&& call_requires(enter, (&*plugin,))
                &&& forall|guard: G| #[trigger]
                    call_ensures(enter, (&*plugin,), guard) ==> {
                        &&& call_requires(run, (&*plugin, &guard, message))
                        &&& call_requires(leave, (&*plugin, guard))
                    }
            },
        ensures
            *final(self) == *old(self),
            match old(self)@.plugin_for_module(plugin_module@) {
                None => result == Err::<Int, Error<E>>(Error::PluginNotFound),
                Some(plugin) => exists|guard: G, reply: Result<Int, E>|
                    {
                        &&& call_ensures(enter, (&*plugin,), guard)
                        &&& #[trigger] call_ensures(run, (&*plugin, &guard, message), reply)
                        &&& call_ensures(leave, (&*plugin, guard), ())
                        &&& result == plugin_reply(reply)
                        &&& reply matches Ok(status) ==> result == Ok::<Int, Error<E>>(status)
                        &&& reply matches Err(error) ==> result == Err::<Int, Error<E>>(
                            Error::Plugin(error),
                        )
                    },
            },
    {
        match self.plugin_for_module(plugin_module) {
            None => Err(Error::PluginNotFound),
            Some(plugin) => {
                let guard = enter(&*plugin);
                let reply = run(&*plugin, &guard, message);
                leave(&*plugin, guard);
                match reply {
                    Ok(status) => Ok(status),
                    Err(error) => Err(Error::Plugin(error)),
                }
            },
        }
    }

    /// A handle on the instance of the plugin that stands for `plugin_module`.
    pub fn plugin_for_module(&self, plugin_module: &str) -> (plugin: Option<Arc<P>>)
        ensures
            plugin == self@.plugin_for_module(plugin_module@),
            self@.wf(),
            plugin is None <==> !self@.modules.contains_key(plugin_module@),
    {
        proof {
            use_type_invariant(self);
        }
        match self.plugin_modules.get(plugin_module) {
            None => None,
            Some(plugin_index) => if *plugin_index < self.plugins.len() {
                Some(share(&self.plugins[*plugin_index].instance))
            } else {
                None
            },
        }
    }
}

/// What the registry's lock guards: no registry until there has been an
/// initialization, and then always one.
pub struct RegistryState<P, S, M> {
    registry: Option<Registry<P, S, M>>,
}

impl<P, S, M> View for RegistryState<P, S, M> {
    type V = Option<Registry<P, S, M>>;

    closed spec fn view(&self) -> Option<Registry<P, S, M>> {
        self.registry
    }
}

impl<P, S, M> RegistryState<P, S, M> {
    pub fn new() -> (state: Self)
        ensures
            state@ is None,
    {
        RegistryState { registry: None }
    }

    pub fn is_initialized(&self) -> (initialized: bool)
        ensures
            initialized == (self@ is Some),
    {
        self.registry.is_some()
    }

    /// Lets `f` work on the registry, and returns what `f` returns.
    pub fn with_registry_mut<R>(&mut self, f: impl FnOnce(&mut Registry<P, S, M>) -> R) -> (result:
        R)
        requires
            old(self)@ is Some,
            forall|registry: &mut Registry<P, S, M>|
                *registry == old(self)@->0 ==> #[trigger] call_requires(f, (registry,)),
        ensures
            final(self)@ is Some,
            exists|registry: &mut Registry<P, S, M>|
                *registry == old(self)@->0 && *final(registry) == final(self)@->0
                    && #[trigger] call_ensures(f, (registry,), result),
            final(self)@->0@.wf(),
    {
        let result = f(self.registry.as_mut().unwrap());
        let registry = self.registry.as_ref().unwrap();
        proof {
            use_type_invariant(registry);
        }
        result
    }

    /// Lets `f` read the registry, and returns what `f` returns.
    pub fn with_registry<R>(&self, f: impl FnOnce(&Registry<P, S, M>) -> R) -> (result: R)
        requires
            self@ is Some,
            call_requires(f, (&self@->0,)),
        ensures
            call_ensures(f, (&self@->0,), result),
            self@->0@.wf(),
    {
        let registry = self.registry.as_ref().unwrap();
        proof {
            use_type_invariant(registry);
        }
        f(registry)
    }

    /// Lets `init_function` fill a new registry, unless there is a registry: it is
    /// called once then, and not at all otherwise.
    pub fn init<F>(&mut self, init_function: F) where F: FnOnce(&mut Registry<P, S, M>)
        requires
            old(self)@ is None ==> forall|registry: &mut Registry<P, S, M>|
                registry@ == RegistryView::<P, S, M>::empty() ==> #[trigger] call_requires(
                    init_function,
                    (registry,),
                ),
        ensures
            final(self)@ is Some,
            old(self)@ is Some ==> final(self)@ == old(self)@,
            old(self)@ is None ==> exists|registry: &mut Registry<P, S, M>|
                registry@ == RegistryView::<P, S, M>::empty() && *final(registry) == final(self)@->0
                    && #[trigger] call_ensures(init_function, (registry,), ()),
            final(self)@->0@.wf(),
    {
        if self.registry.is_none() {
            let mut registry = Registry::new();
            init_function(&mut registry);
            self.registry = Some(registry);
        }
        let registry = self.registry.as_ref().unwrap();
        proof {
            use_type_invariant(registry);
        }
    }
}

/// The registry to which `plugins` were added, one after the other.
pub open spec fn registered<P, S, M>(plugins: Seq<PluginDescriptor<P, S, M>>) -> RegistryView<
    P,
    S,
    M,
>
    decreases plugins.len(),
{
    if plugins.len() == 0 {
        RegistryView::empty()
    } else {
        registered(plugins.drop_last()).added(plugins.last())
    }
}

/// No plugin is lost, and each stands where it was put: the registry lists the
/// plugins in the order of their registration.
pub proof fn law_plugins_in_order<P, S, M>(plugins: Seq<PluginDescriptor<P, S, M>>)
    ensures
        registered(plugins).plugins == plugins,
    decreases plugins.len(),
{
    if plugins.len() > 0 {
        law_plugins_in_order(plugins.drop_last());
    }
}

/// The plugin that was registered last for a module stands for it.
pub proof fn law_last_registration_counts<P, S, M>(
    plugins: Seq<PluginDescriptor<P, S, M>>,
    module: Seq<char>,
    index: int,
)
    requires
        plugins.len() <= usize::MAX,
        0 <= index < plugins.len(),
        plugins[index].module_name@ == module,
        forall|later: int|
            index < later < plugins.len() ==> (#[trigger] plugins[later]).module_name@ != module,
    ensures
        registered(plugins).plugin_for_module(module) == Some(plugins[index].instance),
        registered(plugins).wf(),
    decreases plugins.len(),
{
    law_modules_lead_to_plugins(plugins);
    law_plugins_in_order(plugins);
    let earlier = plugins.drop_last();
    law_plugins_in_order(earlier);
    if index < earlier.len() {
        assert forall|later: int| index < later < earlier.len() implies (
        #[trigger] earlier[later]).module_name@ != module by {
            assert(earlier[later] == plugins[later]);
        }
        law_last_registration_counts(earlier, module, index);
        assert(plugins.last().module_name@ != module);
    }
}

/// A module for which nothing was registered has no plugin.
pub proof fn law_unknown_module<P, S, M>(
    plugins: Seq<PluginDescriptor<P, S, M>>,
    module: Seq<char>,
)
    requires
        forall|i: int| 0 <= i < plugins.len() ==> (#[trigger] plugins[i]).module_name@ != module,
    ensures
        registered(plugins).plugin_for_module(module) is None,
        !registered(plugins).modules.contains_key(module),
    decreases plugins.len(),
{
    if plugins.len() > 0 {
        let earlier = plugins.drop_last();
        assert forall|i: int| 0 <= i < earlier.len() implies (
        #[trigger] earlier[i]).module_name@ != module by {
            assert(earlier[i] == plugins[i]);
        }
        law_unknown_module(earlier, module);
        assert(plugins.last().module_name@ != module);
    }
}

/// In every registry, each module leads to a plugin that implements it.
pub proof fn law_modules_lead_to_plugins<P, S, M>(plugins: Seq<PluginDescriptor<P, S, M>>)
    requires
        plugins.len() <= usize::MAX,
    ensures
        registered(plugins).wf(),
        forall|module: Seq<char>| #[trigger]
            registered(plugins).modules.contains_key(module) ==> registered(
                plugins,
            ).plugins[registered(plugins).modules[module] as int].module_name@ == module,
    decreases plugins.len(),
{
    if plugins.len() > 0 {
        let earlier = plugins.drop_last();
        law_modules_lead_to_plugins(earlier);
        law_plugins_in_order(earlier);
    }
}

/// Adding a plugin moves no other one, and changes the plugin of no other module.
pub proof fn law_add_keeps_the_others<P, S, M>(
    registry: RegistryView<P, S, M>,
    plugin: PluginDescriptor<P, S, M>,
    module: Seq<char>,
)
    requires
        registry.wf(),
        registry.plugins.len() < usize::MAX,
        module != plugin.module_name@,
    ensures
        forall|index: int|
            0 <= index < registry.plugins.len() ==> #[trigger] registry.added(plugin).plugins[index]
                == registry.plugins[index],
        registry.added(plugin).plugin_for_module(module) == registry.plugin_for_module(module),
        registry.added(plugin).plugin_for_module(plugin.module_name@) == Some(plugin.instance),
{
}

} // verus!
