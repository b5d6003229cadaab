//! The entries of the tray menu, named by their menu ids.
use vstd::prelude::*;
use vstd::string::StringExecFns;

verus! {

#[derive(Clone, Copy, Debug, PartialEq, Eq, Structural)]
pub enum TrayItem {
    ShowConfigurations,
    ViewBuilds,
    ClearBuilds,
    ViewAlerts,
    ClearAlerts,
    Preferences,
    Quit,
}

/// The menu id of each entry: its name in snake case.
pub open spec fn tray_item_id(t: TrayItem) -> Seq<char> {
    match t {
        TrayItem::ShowConfigurations => "show_configurations"@,
        TrayItem::ViewBuilds => "view_builds"@,
        TrayItem::ClearBuilds => "clear_builds"@,
        TrayItem::ViewAlerts => "view_alerts"@,
        TrayItem::ClearAlerts => "clear_alerts"@,
        TrayItem::Preferences => "preferences"@,
        TrayItem::Quit => "quit"@,
    }
}

impl TrayItem {
    /// The menu id of this entry.
    pub fn as_str(&self) -> (r: &'static str)
        ensures
            r@ == tray_item_id(*self),
    {
        match self {
            TrayItem::ShowConfigurations => "show_configurations",
            TrayItem::ViewBuilds => "view_builds",
            TrayItem::ClearBuilds => "clear_builds",
            TrayItem::ViewAlerts => "view_alerts",
            TrayItem::ClearAlerts => "clear_alerts",
            TrayItem::Preferences => "preferences",
            TrayItem::Quit => "quit",
        }
    }

    /// The entry with menu id `id`, or an error naming the unknown id.
    pub fn from_menu_id(id: &str) -> (r: Result<TrayItem, String>)
        ensures
            match r {
                Ok(t) => tray_item_id(t) == id@,
                Err(e) => {
                    &&& forall|t: TrayItem| tray_item_id(t) != id@
                    &&& e@ == "Invalid tray item id \""@ + id@ + "\""@
                },
            },
    {
        let all = [
            TrayItem::ShowConfigurations,
            TrayItem::ViewBuilds,
            TrayItem::ClearBuilds,
            TrayItem::ViewAlerts,
            TrayItem::ClearAlerts,
            TrayItem::Preferences,
            TrayItem::Quit,
        ];
        let wanted = String::from_str(id);
        let mut i: usize = 0;
        while i < 7
            invariant
                i <= 7,
                wanted@ == id@,
                all@ == seq![
                    TrayItem::ShowConfigurations,
                    TrayItem::ViewBuilds,
                    TrayItem::ClearBuilds,
                    TrayItem::ViewAlerts,
                    TrayItem::ClearAlerts,
                    TrayItem::Preferences,
                    TrayItem::Quit,
                ],
                forall|j: int| 0 <= j < i ==> tray_item_id(all@[j]) != id@,
            decreases 7 - i,
        {
            let t = all[i];
            if wanted.eq(&String::from_str(t.as_str())) {
                return Ok(t);
            }
            i += 1;
        }
        proof {
            assert forall|t: TrayItem| tray_item_id(t) != id@ by {
                match t {
                    TrayItem::ShowConfigurations => assert(all@[0] == t),
                    TrayItem::ViewBuilds => assert(all@[1] == t),
                    TrayItem::ClearBuilds => assert(all@[2] == t),
                    TrayItem::ViewAlerts => assert(all@[3] == t),
                    TrayItem::ClearAlerts => assert(all@[4] == t),
                    TrayItem::Preferences => assert(all@[5] == t),
                    TrayItem::Quit => assert(all@[6] == t),
                }
            }
        }
        Err(String::from_str("Invalid tray item id \"").concat(id).concat("\""))
    }
}

} // verus!
