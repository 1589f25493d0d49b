//! The wireless view: radios with the modes they support, the wireless
//! interfaces on them, and requests that change them.

use crate::service::netlink::{NetlinkError, NetlinkInterfaceMode};
use vstd::prelude::*;
use wl_nl80211::{Nl80211Attr, Nl80211Interface, Nl80211InterfaceType, Nl80211NewInterface};

verus! {

/// A wireless interface as the wireless view shows it.
#[derive(Clone, Debug, PartialEq, Eq)]
pub struct WiphyInterface {
    pub index: u32,
    /// The radio that carries the interface.
    pub phy_index: u32,
    pub name: String,
    /// The mode that the interface is in.
    pub iftype: NetlinkInterfaceMode,
}

/// The mathematical value of a `WiphyInterface`.
pub struct WiphyInterfaceView {
    pub index: u32,
    pub phy_index: u32,
    pub name: Seq<char>,
    pub iftype: NetlinkInterfaceMode,
}

impl View for WiphyInterface {
    type V = WiphyInterfaceView;

    open spec fn view(&self) -> WiphyInterfaceView {
        WiphyInterfaceView {
            index: self.index,
            phy_index: self.phy_index,
            name: self.name@,
            iftype: self.iftype,
        }
    }
}

/// A radio, which may carry several wireless interfaces.
#[derive(Clone, Debug, PartialEq, Eq)]
pub struct WiphyDevice {
    pub phy_index: u32,
    pub phy_name: String,
    pub supported_iftypes: Vec<NetlinkInterfaceMode>,
}

/// The mathematical value of a `WiphyDevice`.
pub struct WiphyDeviceView {
    pub phy_index: u32,
    pub phy_name: Seq<char>,
    pub supported_iftypes: Seq<NetlinkInterfaceMode>,
}

impl View for WiphyDevice {
    type V = WiphyDeviceView;

    open spec fn view(&self) -> WiphyDeviceView {
        WiphyDeviceView {
            phy_index: self.phy_index,
            phy_name: self.phy_name@,
            supported_iftypes: self.supported_iftypes@,
        }
    }
}

/// One attribute of a wireless record, as far as the model reads it.
#[derive(Clone, Debug, PartialEq, Eq)]
pub enum WiphyAttr {
    /// The interface's index.
    IfIndex(u32),
    /// The radio's index.
    Wiphy(u32),
    /// The interface's name.
    IfName(String),
    /// The code of the interface's mode.
    IfType(u32),
    /// The radio's name.
    WiphyName(String),
    /// The codes of the modes that the radio supports.
    SupportedIftypes(Vec<u16>),
    /// An attribute that the model does not read.
    Other,
}

/// One record of a wireless enumeration, of interfaces or of radios.
#[derive(Clone, Debug, PartialEq, Eq)]
pub struct WiphyRecord {
    pub attributes: Vec<WiphyAttr>,
}

/// The index that the last interface-index attribute gives.
pub open spec fn last_if_index(attributes: Seq<WiphyAttr>) -> Option<u32>
    decreases attributes.len(),
{
    if attributes.len() == 0 {
        None
    } else {
        match attributes.last() {
            WiphyAttr::IfIndex(index) => Some(index),
            _ => last_if_index(attributes.drop_last()),
        }
    }
}

/// The index that the last radio-index attribute gives.
pub open spec fn last_wiphy(attributes: Seq<WiphyAttr>) -> Option<u32>
    decreases attributes.len(),
{
    if attributes.len() == 0 {
        None
    } else {
        match attributes.last() {
            WiphyAttr::Wiphy(index) => Some(index),
            _ => last_wiphy(attributes.drop_last()),
        }
    }
}

/// The name that the last interface-name attribute gives.
pub open spec fn last_wiphy_if_name(attributes: Seq<WiphyAttr>) -> Option<Seq<char>>
    decreases attributes.len(),
{
    if attributes.len() == 0 {
        None
    } else {
        match attributes.last() {
            WiphyAttr::IfName(name) => Some(name@),
            _ => last_wiphy_if_name(attributes.drop_last()),
        }
    }
}

/// The mode that the last interface-type attribute gives.
pub open spec fn last_if_type(attributes: Seq<WiphyAttr>) -> Option<NetlinkInterfaceMode>
    decreases attributes.len(),
{
    if attributes.len() == 0 {
        None
    } else {
        match attributes.last() {
            WiphyAttr::IfType(code) => Some(NetlinkInterfaceMode::of_iftype(code)),
            _ => last_if_type(attributes.drop_last()),
        }
    }
}

/// The name that the last radio-name attribute gives.
pub open spec fn last_wiphy_name(attributes: Seq<WiphyAttr>) -> Option<Seq<char>>
    decreases attributes.len(),
{
    if attributes.len() == 0 {
        None
    } else {
        match attributes.last() {
            WiphyAttr::WiphyName(name) => Some(name@),
            _ => last_wiphy_name(attributes.drop_last()),
        }
    }
}

/// The modes that a list of mode codes stands for.
pub open spec fn modes_of_codes(codes: Seq<u16>) -> Seq<NetlinkInterfaceMode> {
    codes.map_values(|code: u16| NetlinkInterfaceMode::of_iftype(code as u32))
}

/// The modes that the last supported-modes attribute gives.
pub open spec fn last_supported_iftypes(attributes: Seq<WiphyAttr>) -> Option<
    Seq<NetlinkInterfaceMode>,
>
    decreases attributes.len(),
{
    if attributes.len() == 0 {
        None
    } else {
        match attributes.last() {
            WiphyAttr::SupportedIftypes(codes) => Some(modes_of_codes(codes@)),
            _ => last_supported_iftypes(attributes.drop_last()),
        }
    }
}

/// Reads a list of mode codes.
pub fn modes_from_codes(codes: &Vec<u16>) -> (modes: Vec<NetlinkInterfaceMode>)
    ensures
        modes@ == modes_of_codes(codes@),
{
    let mut modes: Vec<NetlinkInterfaceMode> = Vec::new();
    let mut i: usize = 0;
    while i < codes.len()
        invariant
            i <= codes.len(),
            modes@ == modes_of_codes(codes@.take(i as int)),
        decreases codes.len() - i,
    {
        modes.push(NetlinkInterfaceMode::from(codes[i]));
        i += 1;
        assert(modes@ =~= modes_of_codes(codes@.take(i as int)));
    }
    assert(codes@.take(i as int) =~= codes@);
    modes
}

impl WiphyRecord {
    /// The wireless interface that this record describes. A record that
    /// lacks the index, the radio, the name or the mode describes none.
    pub open spec fn interface(self) -> Option<WiphyInterfaceView> {
        match (
            last_if_index(self.attributes@),
            last_wiphy(self.attributes@),
            last_wiphy_if_name(self.attributes@),
            last_if_type(self.attributes@),
        ) {
            (Some(index), Some(phy_index), Some(name), Some(iftype)) => Some(
                WiphyInterfaceView { index, phy_index, name, iftype },
            ),
            _ => None,
        }
    }

    /// Reads the wireless interface out of this record, or `None` where
    /// one of its four fields is missing.
    pub fn to_interface(&self) -> (found: Option<WiphyInterface>)
        ensures
            found matches Some(interface) ==> self.interface() == Some(interface@),
            found is None ==> self.interface() is None,
    {
        let mut index: Option<u32> = None;
        let mut phy_index: Option<u32> = None;
        let mut name: Option<String> = None;
        let mut iftype: Option<NetlinkInterfaceMode> = None;
        let mut i: usize = 0;
        while i < self.attributes.len()
            invariant
                i <= self.attributes.len(),
                index == last_if_index(self.attributes@.take(i as int)),
                phy_index == last_wiphy(self.attributes@.take(i as int)),
                name matches Some(n) ==> last_wiphy_if_name(self.attributes@.take(i as int))
                    == Some(n@),
                name is None ==> last_wiphy_if_name(self.attributes@.take(i as int)) is None,
                iftype == last_if_type(self.attributes@.take(i as int)),
            decreases self.attributes.len() - i,
        {
            proof {
                let next = self.attributes@.take(i + 1);
                assert(next.drop_last() =~= self.attributes@.take(i as int));
                assert(next.last() == self.attributes@[i as int]);
            }
            match &self.attributes[i] {
                WiphyAttr::IfIndex(value) => {
                    index = Some(*value);
                },
                WiphyAttr::Wiphy(value) => {
                    phy_index = Some(*value);
                },
                WiphyAttr::IfName(value) => {
                    name = Some(value.clone());
                },
                WiphyAttr::IfType(code) => {
                    iftype = Some(NetlinkInterfaceMode::from(*code));
                },
                _ => {},
            }
            i += 1;
        }
        assert(self.attributes@.take(i as int) =~= self.attributes@);
        match (index, phy_index, name, iftype) {
            (Some(index), Some(phy_index), Some(name), Some(iftype)) => Some(
                WiphyInterface { index, phy_index, name, iftype },
            ),
            _ => None,
        }
    }
}

/// The wireless interfaces that a run of records describes, in the
/// records' order; records that describe none are left out.
pub open spec fn wiphy_interfaces_of(records: Seq<WiphyRecord>) -> Seq<WiphyInterfaceView>
    decreases records.len(),
{
    if records.len() == 0 {
        Seq::empty()
    } else {
        let earlier = wiphy_interfaces_of(records.drop_last());
        match records.last().interface() {
            Some(interface) => earlier.push(interface),
            None => earlier,
        }
    }
}

/// The values of a run of wireless interfaces.
pub open spec fn wiphy_interface_views(interfaces: Seq<WiphyInterface>) -> Seq<
    WiphyInterfaceView,
> {
    interfaces.map_values(|interface: WiphyInterface| interface@)
}

/// The wireless side of the engine.
pub struct WiphyManager;

impl WiphyManager {
    /// Builds the list of wireless interfaces from the records of one
    /// enumeration. A record that lacks one of its four fields is skipped.
    pub fn get_wiphy_interfaces(records: &Vec<WiphyRecord>) -> (interfaces: Vec<WiphyInterface>)
        ensures
            wiphy_interface_views(interfaces@) == wiphy_interfaces_of(records@),
    {
        let mut interfaces: Vec<WiphyInterface> = Vec::new();
        let mut i: usize = 0;
        while i < records.len()
            invariant
                i <= records.len(),
                wiphy_interface_views(interfaces@) == wiphy_interfaces_of(
                    records@.take(i as int),
                ),
            decreases records.len() - i,
        {
            proof {
                let next = records@.take(i + 1);
                assert(next.drop_last() =~= records@.take(i as int));
                assert(next.last() == records@[i as int]);
            }
            let ghost before = interfaces@;
            match records[i].to_interface() {
                Some(interface) => {
                    interfaces.push(interface);
                    assert(wiphy_interface_views(interfaces@) =~= wiphy_interface_views(
                        before,
                    ).push(interface@));
                },
                None => {},
            }
            i += 1;
        }
        assert(records@.take(i as int) =~= records@);
        interfaces
    }
}

/// The values of a run of radios.
pub open spec fn wiphy_device_views(devices: Seq<WiphyDevice>) -> Seq<WiphyDeviceView> {
    devices.map_values(|device: WiphyDevice| device@)
}

/// Where the radio of an index stands in a run of radios: the first place
/// that holds the index.
pub open spec fn position_of_phy(devices: Seq<WiphyDeviceView>, phy_index: u32) -> Option<int>
    decreases devices.len(),
{
    if devices.len() == 0 {
        None
    } else {
        match position_of_phy(devices.drop_last(), phy_index) {
            Some(i) => Some(i),
            None => if devices.last().phy_index == phy_index {
                Some(devices.len() - 1)
            } else {
                None
            },
        }
    }
}

/// No radio index stands twice.
pub open spec fn distinct_phys(devices: Seq<WiphyDeviceView>) -> bool {
    forall|i: int, j: int|
        0 <= i < j < devices.len() ==> devices[i].phy_index != devices[j].phy_index
}

/// The place of a radio is a place that holds its index, and no place
/// before it does; a radio without a place stands nowhere.
proof fn lemma_position_of_phy(devices: Seq<WiphyDeviceView>, phy_index: u32)
    ensures
        match position_of_phy(devices, phy_index) {
            Some(i) => 0 <= i < devices.len() && devices[i].phy_index == phy_index && forall|
                k: int,
            |
                0 <= k < i ==> devices[k].phy_index != phy_index,
            None => forall|k: int| 0 <= k < devices.len() ==> devices[k].phy_index != phy_index,
        },
    decreases devices.len(),
{
    if devices.len() > 0 {
        lemma_position_of_phy(devices.drop_last(), phy_index);
        match position_of_phy(devices.drop_last(), phy_index) {
            Some(i) => {
                assert(devices[i] == devices.drop_last()[i]);
                assert forall|k: int| 0 <= k < i implies devices[k].phy_index != phy_index by {
                    assert(devices[k] == devices.drop_last()[k]);
                }
            },
            None => {
                assert forall|k: int| 0 <= k < devices.len() - 1 implies devices[k].phy_index
                    != phy_index by {
                    assert(devices[k] == devices.drop_last()[k]);
                }
            },
        }
    }
}

/// The radios after one more record has been read. A record without a
/// radio index changes nothing. A record for a radio that is already
/// there replaces the name and the modes that it brings, and keeps the
/// others; a record for a new radio adds it at the end, with an empty
/// name and no modes where it brings none.
pub open spec fn accumulate_device(devices: Seq<WiphyDeviceView>, record: WiphyRecord) -> Seq<
    WiphyDeviceView,
> {
    match last_wiphy(record.attributes@) {
        None => devices,
        Some(phy_index) => {
            let phy_name = last_wiphy_name(record.attributes@);
            let supported_iftypes = last_supported_iftypes(record.attributes@);
            match position_of_phy(devices, phy_index) {
                Some(i) => devices.update(
                    i,
                    WiphyDeviceView {
                        phy_index,
                        phy_name: match phy_name {
                            Some(name) => name,
                            None => devices[i].phy_name,
                        },
                        supported_iftypes: match supported_iftypes {
                            Some(modes) => modes,
                            None => devices[i].supported_iftypes,
                        },
                    },
                ),
                None => devices.push(
                    WiphyDeviceView {
                        phy_index,
                        phy_name: match phy_name {
                            Some(name) => name,
                            None => Seq::empty(),
                        },
                        supported_iftypes: match supported_iftypes {
                            Some(modes) => modes,
                            None => Seq::empty(),
                        },
                    },
                ),
            }
        },
    }
}

/// The radios that a run of records describes: the records are read in
/// turn, and those of one radio are gathered into one entry.
pub open spec fn wiphy_devices_of(records: Seq<WiphyRecord>) -> Seq<WiphyDeviceView>
    decreases records.len(),
{
    if records.len() == 0 {
        Seq::empty()
    } else {
        accumulate_device(wiphy_devices_of(records.drop_last()), records.last())
    }
}

/// Reading one more record keeps the radio indices distinct.
proof fn lemma_accumulate_distinct(devices: Seq<WiphyDeviceView>, record: WiphyRecord)
    requires
        distinct_phys(devices),
    ensures
        distinct_phys(accumulate_device(devices, record)),
{
    match last_wiphy(record.attributes@) {
        None => {},
        Some(phy_index) => {
            lemma_position_of_phy(devices, phy_index);
        },
    }
}

/// In the radios that a run of records describes no index stands twice.
pub proof fn lemma_wiphy_devices_distinct(records: Seq<WiphyRecord>)
    ensures
        distinct_phys(wiphy_devices_of(records)),
    decreases records.len(),
{
    if records.len() > 0 {
        lemma_wiphy_devices_distinct(records.drop_last());
        lemma_accumulate_distinct(wiphy_devices_of(records.drop_last()), records.last());
    }
}

/// What a radio record brings: the radio's index, and the name and the
/// modes where the record holds them.
pub struct WiphyDeviceUpdate {
    pub phy_index: Option<u32>,
    pub phy_name: Option<String>,
    pub supported_iftypes: Option<Vec<NetlinkInterfaceMode>>,
}

impl WiphyRecord {
    /// Reads what this record brings for a radio.
    pub fn to_device_update(&self) -> (update: WiphyDeviceUpdate)
        ensures
            update.phy_index == last_wiphy(self.attributes@),
            update.phy_name matches Some(name) ==> last_wiphy_name(self.attributes@) == Some(
                name@,
            ),
            update.phy_name is None ==> last_wiphy_name(self.attributes@) is None,
            update.supported_iftypes matches Some(modes) ==> last_supported_iftypes(
                self.attributes@,
            ) == Some(modes@),
            update.supported_iftypes is None ==> last_supported_iftypes(self.attributes@) is None,
    {
        let mut phy_index: Option<u32> = None;
        let mut phy_name: Option<String> = None;
        let mut supported_iftypes: Option<Vec<NetlinkInterfaceMode>> = None;
        let mut i: usize = 0;
        while i < self.attributes.len()
            invariant
                i <= self.attributes.len(),
                phy_index == last_wiphy(self.attributes@.take(i as int)),
                phy_name matches Some(name) ==> last_wiphy_name(self.attributes@.take(i as int))
                    == Some(name@),
                phy_name is None ==> last_wiphy_name(self.attributes@.take(i as int)) is None,
                supported_iftypes matches Some(modes) ==> last_supported_iftypes(
                    self.attributes@.take(i as int),
                ) == Some(modes@),
                supported_iftypes is None ==> last_supported_iftypes(
                    self.attributes@.take(i as int),
                ) is None,
            decreases self.attributes.len() - i,
        {
            proof {
                let next = self.attributes@.take(i + 1);
                assert(next.drop_last() =~= self.attributes@.take(i as int));
                assert(next.last() == self.attributes@[i as int]);
            }
            match &self.attributes[i] {
                WiphyAttr::Wiphy(value) => {
                    phy_index = Some(*value);
                },
                WiphyAttr::WiphyName(value) => {
                    phy_name = Some(value.clone());
                },
                WiphyAttr::SupportedIftypes(codes) => {
                    supported_iftypes = Some(modes_from_codes(codes));
                },
                _ => {},
            }
            i += 1;
        }
        assert(self.attributes@.take(i as int) =~= self.attributes@);
        WiphyDeviceUpdate { phy_index, phy_name, supported_iftypes }
    }
}

fn find_phy(devices: &Vec<WiphyDevice>, phy_index: u32) -> (found: Option<usize>)
    ensures
        found matches Some(i) ==> i < devices@.len() && position_of_phy(
            wiphy_device_views(devices@),
            phy_index,
        ) == Some(i as int),
        found is None ==> position_of_phy(wiphy_device_views(devices@), phy_index) is None,
{
    let mut i: usize = 0;
    while i < devices.len()
        invariant
            i <= devices.len(),
            forall|k: int|
                0 <= k < i ==> wiphy_device_views(devices@)[k].phy_index != phy_index,
        decreases devices.len() - i,
    {
        assert(wiphy_device_views(devices@)[i as int] == devices@[i as int]@);
        if devices[i].phy_index == phy_index {
            proof {
                lemma_position_of_phy(wiphy_device_views(devices@), phy_index);
            }
            return Some(i);
        }
        i += 1;
    }
    proof {
        lemma_position_of_phy(wiphy_device_views(devices@), phy_index);
    }
    None
}

impl WiphyManager {
    /// Builds the list of radios from the records of one enumeration. The
    /// kernel may spread one radio over several records: they are gathered
    /// into one entry, in which a later record replaces only what it
    /// brings. A record without a radio index is skipped. No radio index
    /// stands twice in the result.
    pub fn get_wiphy_devices(records: &Vec<WiphyRecord>) -> (devices: Vec<WiphyDevice>)
        ensures
            wiphy_device_views(devices@) == wiphy_devices_of(records@),
            distinct_phys(wiphy_device_views(devices@)),
    {
        let mut devices: Vec<WiphyDevice> = Vec::new();
        let mut i: usize = 0;
        assert(wiphy_device_views(devices@) =~= wiphy_devices_of(records@.take(0)));
        while i < records.len()
            invariant
                i <= records.len(),
                wiphy_device_views(devices@) == wiphy_devices_of(records@.take(i as int)),
            decreases records.len() - i,
        {
            proof {
                let next = records@.take(i + 1);
                assert(next.drop_last() =~= records@.take(i as int));
                assert(next.last() == records@[i as int]);
            }
            let ghost before = devices@;
            let update = records[i].to_device_update();
            match update.phy_index {
                None => {},
                Some(phy_index) => {
                    match find_phy(&devices, phy_index) {
                        Some(at) => {
                            assert(wiphy_device_views(before)[at as int] == before[at as int]@);
                            let phy_name = match update.phy_name {
                                Some(name) => name,
                                None => devices[at].phy_name.clone(),
                            };
                            let supported_iftypes = match update.supported_iftypes {
                                Some(modes) => modes,
                                None => devices[at].supported_iftypes.clone(),
                            };
                            let device = WiphyDevice { phy_index, phy_name, supported_iftypes };
                            devices.set(at, device);
                            assert(wiphy_device_views(devices@) =~= wiphy_device_views(
                                before,
                            ).update(at as int, device@));
                        },
                        None => {
                            let phy_name = match update.phy_name {
                                Some(name) => name,
                                None => String::new(),
                            };
                            let supported_iftypes = match update.supported_iftypes {
                                Some(modes) => modes,
                                None => Vec::new(),
                            };
                            let device = WiphyDevice { phy_index, phy_name, supported_iftypes };
                            devices.push(device);
                            assert(wiphy_device_views(devices@) =~= wiphy_device_views(
                                before,
                            ).push(device@));
                        },
                    }
                },
            }
            i += 1;
        }
        assert(records@.take(i as int) =~= records@);
        proof {
            lemma_wiphy_devices_distinct(records@);
        }
        devices
    }
}

/// `wl_nl80211::Nl80211Attr`, one attribute of a wireless request.
/// Nothing inside it is visible here.
#[verifier::external_type_specification]
#[verifier::external_body]
pub struct ExNl80211Attr(Nl80211Attr);

/// The attributes that `wl_nl80211` builds to put the interface of an
/// index into the mode of an interface type code.
pub uninterp spec fn interface_mode_attrs(index: u32, iftype: u32) -> Seq<Nl80211Attr>;

/// The attributes that `wl_nl80211` builds to add an interface of a name
/// and of the mode of an interface type code to the radio of an index.
pub uninterp spec fn new_interface_attrs(phy_index: u32, iftype: u32, name: Seq<char>) -> Seq<
    Nl80211Attr,
>;

/// The attributes by which `wl_nl80211` names the interface of an index.
pub uninterp spec fn interface_attrs(index: u32) -> Seq<Nl80211Attr>;

/// Builds the attributes of a mode change with
/// `wl_nl80211::Nl80211Interface::new`, `interface_type` and `build`; the
/// type comes from the code by `Nl80211InterfaceType::from`.
///
/// Taken on trust: the builder holds one attribute of each kind and hands
/// them out ordered by kind, so the result depends on the two numbers
/// alone and is `interface_mode_attrs` of them.
#[verifier::external_body]
fn build_interface_mode_attrs(index: u32, iftype: u32) -> (attrs: Vec<Nl80211Attr>)
    ensures
        attrs@ == interface_mode_attrs(index, iftype),
{
    Nl80211Interface::new(index).interface_type(Nl80211InterfaceType::from(iftype)).build()
}

/// Builds the attributes of a new interface with
/// `wl_nl80211::Nl80211NewInterface::new` and `build`; the type comes
/// from the code by `Nl80211InterfaceType::from`.
///
/// Taken on trust: the builder holds one attribute of each kind and hands
/// them out ordered by kind, so the result depends on the arguments alone
/// and is `new_interface_attrs` of them.
#[verifier::external_body]
fn build_new_interface_attrs(phy_index: u32, iftype: u32, name: String) -> (attrs: Vec<
    Nl80211Attr,
>)
    ensures
        attrs@ == new_interface_attrs(phy_index, iftype, name@),
{
    Nl80211NewInterface::new(phy_index, Nl80211InterfaceType::from(iftype), name).build()
}

/// Builds the attributes that name an interface with
/// `wl_nl80211::Nl80211Interface::new` and `build`.
///
/// Taken on trust: the result depends on the index alone and is
/// `interface_attrs` of it.
#[verifier::external_body]
fn build_interface_attrs(index: u32) -> (attrs: Vec<Nl80211Attr>)
    ensures
        attrs@ == interface_attrs(index),
{
    Nl80211Interface::new(index).build()
}

/// A prepared request, or the reason why none was prepared, with the
/// request taken as the run of its attributes.
pub open spec fn request_view(request: Result<Vec<Nl80211Attr>, NetlinkError>) -> Result<
    Seq<Nl80211Attr>,
    NetlinkError,
> {
    match request {
        Ok(attrs) => Ok(attrs@),
        Err(error) => Err(error),
    }
}

impl WiphyManager {
    /// The request that asks the kernel to put an interface into a mode.
    /// Only a named mode can be asked for; the interface is named by its
    /// index.
    pub open spec fn mode_request(index: u32, mode: NetlinkInterfaceMode) -> Result<
        Seq<Nl80211Attr>,
        NetlinkError,
    > {
        match mode.spec_iftype_code() {
            Ok(code) => Ok(interface_mode_attrs(index, code)),
            Err(error) => Err(error),
        }
    }

    /// The request that asks the kernel for a new interface on a radio.
    /// Only a named mode can be asked for.
    pub open spec fn create_request(
        phy_index: u32,
        mode: NetlinkInterfaceMode,
        name: Seq<char>,
    ) -> Result<Seq<Nl80211Attr>, NetlinkError> {
        match mode.spec_iftype_code() {
            Ok(code) => Ok(new_interface_attrs(phy_index, code, name)),
            Err(error) => Err(error),
        }
    }

    /// Prepares the request that changes an interface's mode.
    /// `OtherWireless` is refused with `InvalidTarget`, and no request is
    /// built. A request that the kernel accepts is not yet a confirmation
    /// that the interface has taken the mode.
    pub fn set_wiphy_interface_mode(
        wiphy_interface: &WiphyInterface,
        iftype: NetlinkInterfaceMode,
    ) -> (request: Result<Vec<Nl80211Attr>, NetlinkError>)
        ensures
            request_view(request) == WiphyManager::mode_request(wiphy_interface.index, iftype),
            request is Ok <==> iftype.spec_is_settable(),
    {
        match iftype.iftype_code() {
            Ok(code) => Ok(build_interface_mode_attrs(wiphy_interface.index, code)),
            Err(error) => Err(error),
        }
    }

    /// Prepares the request that adds an interface of a name and a mode to
    /// a radio. `OtherWireless` is refused with `InvalidTarget`, and no
    /// request is built.
    pub fn create_wiphy_interface(
        wiphy_dev: &WiphyDevice,
        iftype: NetlinkInterfaceMode,
        name: String,
    ) -> (request: Result<Vec<Nl80211Attr>, NetlinkError>)
        ensures
            request_view(request) == WiphyManager::create_request(
                wiphy_dev.phy_index,
                iftype,
                name@,
            ),
            request is Ok <==> iftype.spec_is_settable(),
    {
        match iftype.iftype_code() {
            Ok(code) => Ok(build_new_interface_attrs(wiphy_dev.phy_index, code, name)),
            Err(error) => Err(error),
        }
    }

    /// Prepares the request that removes an interface, named by its index.
    pub fn delete_wiphy_interface(wiphy_iface: &WiphyInterface) -> (request: Vec<Nl80211Attr>)
        ensures
            request@ == interface_attrs(wiphy_iface.index),
    {
        build_interface_attrs(wiphy_iface.index)
    }
}

} // verus!
