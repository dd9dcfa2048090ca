use tagged_types::AsReference;
use tagged_types::Cloned;
use tagged_types::FromInner;
use tagged_types::ImplementAdd;
use tagged_types::ImplementClone;
use tagged_types::ImplementCopy;
use tagged_types::ImplementDefault;
use tagged_types::ImplementDeref;
use tagged_types::ImplementDiv;
use tagged_types::ImplementEq;
use tagged_types::ImplementMul;
use tagged_types::ImplementOrd;
use tagged_types::ImplementPartialEq;
use tagged_types::ImplementPartialOrd;
use tagged_types::ImplementSub;
use tagged_types::InnerAccess;
use tagged_types::TaggedType;
use tagged_types::TransparentDebug;
use tagged_types::TransparentDisplay;
use tagged_types::TransparentFromStr;
use tagged_types::ValueMap;

const URL: &str = "http://example.com";

enum UrlDerefTag {}
impl ImplementDeref for UrlDerefTag {}
type UrlDeref = TaggedType<String, UrlDerefTag>;

#[test]
fn tagged_type_test_deref() {
    let url = UrlDeref::new(URL.into());
    assert_eq!(url.deref().to_string(), URL);
    assert!(url.deref().contains("http"));
    assert_eq!(url.deref().as_str(), URL);
}

enum CounterDefaultTag {}
impl InnerAccess for CounterDefaultTag {}
impl ImplementDefault for CounterDefaultTag {}
type CounterDefault = TaggedType<u64, CounterDefaultTag>;

#[test]
fn tagged_type_test_default() {
    let c = CounterDefault::default();
    assert_eq!(*c.inner(), 0);
}

enum CounterCopyTag {}
impl ImplementCopy for CounterCopyTag {}
impl ImplementClone for CounterCopyTag {}
impl TransparentDebug for CounterCopyTag {}
impl ImplementDefault for CounterCopyTag {}
impl ImplementPartialEq for CounterCopyTag {}
type CounterCopy = TaggedType<u64, CounterCopyTag>;

#[test]
fn tagged_type_test_copy() {
    let c = CounterCopy::default();
    let v = c;
    assert!(v == c);
}

enum UsernameTag {}
impl TransparentDebug for UsernameTag {}
impl ImplementPartialEq for UsernameTag {}
impl ImplementClone for UsernameTag {}
type Username = TaggedType<String, UsernameTag>;

#[test]
fn tagged_type_test_clone() {
    let c = Username::new("admin".into());
    let v = c.clone();
    assert!(v == c);
}

enum UrlDisplayTag {}
impl TransparentDisplay for UrlDisplayTag {}
type UrlDisplay = TaggedType<String, UrlDisplayTag>;

#[test]
fn tagged_type_test_transparent_display() {
    let url = UrlDisplay::new(URL.into());
    assert_eq!(format!("url: {}", url.to_display_string()), format!("url: {URL}"));
}

enum UrlDebugTag {}
impl TransparentDebug for UrlDebugTag {}
type UrlDebug = TaggedType<String, UrlDebugTag>;

#[test]
fn tagged_type_test_transparent_debug() {
    let url = UrlDebug::new(URL.into());
    assert_eq!(format!("url: {}", url.to_debug_string()), format!("url: {URL:?}"));
}

enum GatewayTag {}
impl InnerAccess for GatewayTag {}
impl TransparentFromStr for GatewayTag {}
type GatewayOctet = TaggedType<u8, GatewayTag>;

#[test]
fn test_parse_from_text_success() {
    let gw: GatewayOctet = GatewayOctet::from_parsed("192".parse()).unwrap();
    assert_eq!(gw.into_inner(), 192u8);
}

#[test]
fn test_parse_from_text_failure_passed_through() {
    let direct = "not a number".parse::<u8>().unwrap_err();
    match GatewayOctet::from_parsed("not a number".parse()) {
        Ok(_) => panic!("parsing must fail"),
        Err(tagged) => assert_eq!(tagged, direct),
    }
}

enum MetersTag {}
impl ValueMap for MetersTag {}
impl InnerAccess for MetersTag {}
type Meters = TaggedType<u64, MetersTag>;

#[test]
fn test_map_converts_inner() {
    let distance = Meters::new(10);
    let doubled = distance.map(|v| v * 2);
    assert_eq!(*doubled.inner(), 20);
}

#[test]
fn test_try_map_success_and_failure() {
    let distance = Meters::new(10);
    let halved = distance.try_map(|v: u64| -> Result<u64, String> { Ok(v / 2) });
    assert_eq!(*halved.unwrap().inner(), 5);
    let distance = Meters::new(10);
    match distance.try_map(|_v: u64| -> Result<u64, String> { Err("no".to_string()) }) {
        Ok(_) => panic!("try_map must fail"),
        Err(e) => assert_eq!(e, "no"),
    }
}

enum RefCloneTag {}
impl AsReference for RefCloneTag {}
impl Cloned for RefCloneTag {}
impl InnerAccess for RefCloneTag {}
type Owner = TaggedType<String, RefCloneTag>;

#[test]
fn test_as_ref_and_cloned() {
    let owner = Owner::new("admin".into());
    let reference: TaggedType<&String, RefCloneTag> = owner.as_ref();
    let owned_again: Owner = reference.cloned();
    assert_eq!(owned_again.into_inner(), "admin".to_string());
}

enum FromInnerTag {}
impl FromInner for FromInnerTag {}
impl InnerAccess for FromInnerTag {}
type Port = TaggedType<u16, FromInnerTag>;

#[test]
fn test_from_inner_conversion() {
    let ssh: Port = 22u16.into();
    assert_eq!(*ssh.inner(), 22);
}

enum BalanceTag {}
impl ImplementAdd for BalanceTag {}
impl ImplementSub for BalanceTag {}
impl ImplementMul for BalanceTag {}
impl ImplementDiv for BalanceTag {}
impl InnerAccess for BalanceTag {}
type Balance = TaggedType<i64, BalanceTag>;

#[test]
fn test_arithmetic_forwards_to_inner() {
    let balance = Balance::new(10);
    assert_eq!(*(balance + 5).inner(), 15);
    let balance = Balance::new(10);
    assert_eq!(*(balance - 4).inner(), 6);
    let balance = Balance::new(10);
    assert_eq!(*(balance * 3).inner(), 30);
    let balance = Balance::new(10);
    assert_eq!(*(balance / 2).inner(), 5);
}

enum PriorityTag {}
impl ImplementPartialEq for PriorityTag {}
impl ImplementEq for PriorityTag {}
impl ImplementPartialOrd for PriorityTag {}
impl ImplementOrd for PriorityTag {}
type Priority = TaggedType<u32, PriorityTag>;

#[test]
fn test_ordering_forwards_to_inner() {
    let p0 = Priority::new(0);
    let p1 = Priority::new(1);
    assert!(p0 < p1);
    assert!(p0 != p1);
    assert_eq!(p0.cmp(&p1), std::cmp::Ordering::Less);
    assert_eq!(p1.cmp(&p0), std::cmp::Ordering::Greater);
    assert_eq!(p0.cmp(&Priority::new(0)), std::cmp::Ordering::Equal);
}

enum PermissiveTag {}
impl tagged_types::Permissive for PermissiveTag {}
type Everything = TaggedType<u64, PermissiveTag>;

#[test]
fn test_permissive_grants_every_behaviour() {
    let d = Everything::default();
    assert_eq!(*d.inner(), 0);
    let one: Everything = 1u64.into();
    let copy = one;
    assert!(copy == one);
    assert!(copy.clone() == one);
    assert!(d < one);
    assert_eq!(d.cmp(&one), std::cmp::Ordering::Less);
    let two = one + 1u64;
    assert_eq!(*two.inner(), 2);
    assert_eq!(two.to_display_string(), "2");
    assert_eq!(two.to_debug_string(), "2");
    assert_eq!(*two.deref(), 2);
    let parsed: Everything = Everything::from_parsed("7".parse()).unwrap();
    assert_eq!(parsed.into_inner(), 7);
    let mapped = two.map(|v| v + 10);
    assert_eq!(mapped.into_inner(), 12);
}
