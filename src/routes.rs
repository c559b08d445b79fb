use vstd::prelude::*;

verus! {

/// The screens of the application.
#[derive(Debug, Clone, Copy, PartialEq, Eq)]
pub enum Route {
    Home,
    RenameInstance,
    RemoveInstance,
    NewInstance,
    InstanceMenu,
    AddForge,
    ChangeVersion,
}

/// An entry of an instance's menu.
#[derive(Debug, Clone, Copy, PartialEq, Eq)]
pub enum MenuOption {
    Play,
    PlayShowLog,
    ManageMods,
    ChangeMinecraftVersion,
    ChangeForgeVersion,
    AddForge,
    RemoveForge,
    OpenDirectory,
    Rename,
    Remove,
}

/// The menu of an instance without a mod loader.
pub open spec fn vanilla_menu() -> Seq<MenuOption> {
    seq![
        MenuOption::Play,
        MenuOption::PlayShowLog,
        MenuOption::ChangeMinecraftVersion,
        MenuOption::AddForge,
        MenuOption::OpenDirectory,
        MenuOption::Rename,
        MenuOption::Remove,
    ]
}

/// The menu of an instance with a mod loader.
pub open spec fn forge_menu() -> Seq<MenuOption> {
    seq![
        MenuOption::Play,
        MenuOption::PlayShowLog,
        MenuOption::ManageMods,
        MenuOption::ChangeMinecraftVersion,
        MenuOption::ChangeForgeVersion,
        MenuOption::RemoveForge,
        MenuOption::OpenDirectory,
        MenuOption::Rename,
        MenuOption::Remove,
    ]
}

/// The text shown for an entry.
pub open spec fn label_spec(o: MenuOption) -> Seq<char> {
    match o {
        MenuOption::Play => "Play"@,
        MenuOption::PlayShowLog => "Play (show log)"@,
        MenuOption::ManageMods => "Manage mods"@,
        MenuOption::ChangeMinecraftVersion => "Change minecraft version"@,
        MenuOption::ChangeForgeVersion => "Change forge version"@,
        MenuOption::AddForge => "Add forge"@,
        MenuOption::RemoveForge => "Remove forge"@,
        MenuOption::OpenDirectory => "Open directory"@,
        MenuOption::Rename => "Rename"@,
        MenuOption::Remove => "Remove"@,
    }
}

impl MenuOption {
    /// The menu of an instance without a mod loader.
    pub fn vanilla() -> (r: Vec<MenuOption>)
        ensures
            r@ == vanilla_menu(),
    {
        let mut v: Vec<MenuOption> = Vec::new();
        v.push(MenuOption::Play);
        v.push(MenuOption::PlayShowLog);
        v.push(MenuOption::ChangeMinecraftVersion);
        v.push(MenuOption::AddForge);
        v.push(MenuOption::OpenDirectory);
        v.push(MenuOption::Rename);
        v.push(MenuOption::Remove);
        assert(v@ =~= vanilla_menu());
        v
    }

    /// The menu of an instance with a mod loader.
    pub fn forge() -> (r: Vec<MenuOption>)
        ensures
            r@ == forge_menu(),
    {
        let mut v: Vec<MenuOption> = Vec::new();
        v.push(MenuOption::Play);
        v.push(MenuOption::PlayShowLog);
        v.push(MenuOption::ManageMods);
        v.push(MenuOption::ChangeMinecraftVersion);
        v.push(MenuOption::ChangeForgeVersion);
        v.push(MenuOption::RemoveForge);
        v.push(MenuOption::OpenDirectory);
        v.push(MenuOption::Rename);
        v.push(MenuOption::Remove);
        assert(v@ =~= forge_menu());
        v
    }

    /// The menu of an instance, by whether it has a mod loader.
    pub fn for_instance(has_forge: bool) -> (r: Vec<MenuOption>)
        ensures
            r@ == if has_forge {
                forge_menu()
            } else {
                vanilla_menu()
            },
    {
        if has_forge {
            MenuOption::forge()
        } else {
            MenuOption::vanilla()
        }
    }

    /// The text shown for the entry.
    pub fn label(&self) -> (r: &'static str)
        ensures
            r@ == label_spec(*self),
    {
        match self {
            MenuOption::Play => "Play",
            MenuOption::PlayShowLog => "Play (show log)",
            MenuOption::ManageMods => "Manage mods",
            MenuOption::ChangeMinecraftVersion => "Change minecraft version",
            MenuOption::ChangeForgeVersion => "Change forge version",
            MenuOption::AddForge => "Add forge",
            MenuOption::RemoveForge => "Remove forge",
            MenuOption::OpenDirectory => "Open directory",
            MenuOption::Rename => "Rename",
            MenuOption::Remove => "Remove",
        }
    }
}

/// Work the screens hand to the background worker.
#[derive(Debug, Clone, Copy, PartialEq, Eq)]
pub enum IoEvent {
    NewInstanceFetchMinecraftVersionManifest,
    NewInstanceFetchForgeVersionManifest,
    NewInstance,
    RemoveInstance,
    RenameInstance,
    PlayThenQuit,
    AddForgeFetchVersionManifests,
    AddForge,
    RemoveForge,
}

} // verus!
