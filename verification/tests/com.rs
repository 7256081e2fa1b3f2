//! Reference-counted sharing and the enumeration protocol.

use winsafe::co::ERROR;
use winsafe::dshow_IEnumMediaTypes;
use winsafe::ComGuard;
use winsafe::Host;
use winsafe::AM_MEDIA_TYPE;
use winsafe::IEnumMediaTypes;

#[test]
fn clone_increments_and_each_release_decrements_once() {
    let mut host = Host::new();
    let mut original = ComGuard::create(&mut host).unwrap();
    let mut clone_1 = original.clone_ref(&mut host).unwrap();
    let mut clone_2 = original.clone_ref(&mut host).unwrap();
    let mut clone_3 = original.clone_ref(&mut host).unwrap();
    assert_eq!(host.com_destroyed_count(), 0);
    // each owner releases exactly once; the object survives until the last
    clone_1.release(&mut host).unwrap();
    clone_2.release(&mut host).unwrap();
    original.release(&mut host).unwrap();
    assert_eq!(host.com_destroyed_count(), 0);
    clone_3.release(&mut host).unwrap();
    assert_eq!(host.com_destroyed_count(), 1);
    assert_eq!(host.release_count(), 4);
    // the balance holds: nothing releases twice
    clone_3.release(&mut host).unwrap();
    original.release(&mut host).unwrap();
    assert_eq!(host.com_destroyed_count(), 1);
    assert_eq!(host.release_count(), 4);
}

#[test]
fn com_detach_leaves_the_count_to_the_caller() {
    let mut host = Host::new();
    let mut g = ComGuard::create(&mut host).unwrap();
    let ptr = g.detach();
    g.release(&mut host).unwrap();
    assert_eq!(host.release_count(), 0);
    assert_eq!(host.com_destroyed_count(), 0);
    // balance the forfeited reference manually
    host.com_release(ptr.raw).unwrap();
    assert_eq!(host.com_destroyed_count(), 1);
}

#[test]
fn com_failed_creation_leaves_nothing() {
    let mut host = Host::new();
    host.refuse_next_acquisition();
    assert_eq!(ComGuard::create(&mut host).err().unwrap(), ERROR(8));
    assert_eq!(host.release_count(), 0);
    assert_eq!(host.com_destroyed_count(), 0);
}

#[test]
fn media_type_enumeration_walks_skips_and_resets() {
    let mut host = Host::new();
    let types = vec![
        AM_MEDIA_TYPE {
            majortype: 10,
            subtype: 1,
            lSampleSize: 100,
            bFixedSizeSamples: true,
        },
        AM_MEDIA_TYPE {
            majortype: 20,
            subtype: 2,
            lSampleSize: 200,
            bFixedSizeSamples: false,
        },
        AM_MEDIA_TYPE {
            majortype: 30,
            subtype: 3,
            lSampleSize: 300,
            bFixedSizeSamples: true,
        },
    ];
    let mut en = IEnumMediaTypes::create(&mut host, types).unwrap();
    let mut mt = AM_MEDIA_TYPE::zeroed();
    assert_eq!(en.Next(&mut mt), Ok(true));
    assert_eq!(mt.majortype, 10);
    assert_eq!(en.Skip(1), Ok(true));
    assert_eq!(en.Next(&mut mt), Ok(true));
    assert_eq!(mt.majortype, 30);
    // the end is a plain false, and the element stays untouched
    assert_eq!(en.Next(&mut mt), Ok(false));
    assert_eq!(mt.majortype, 30);
    // skipping past the end parks the cursor at the end
    en.Reset().unwrap();
    assert_eq!(en.Skip(5), Ok(false));
    assert_eq!(en.Next(&mut mt), Ok(false));
    en.Reset().unwrap();
    assert_eq!(en.Next(&mut mt), Ok(true));
    assert_eq!(mt.majortype, 10);
    // the enumerator owns one reference; releasing it destroys the object
    en.release(&mut host).unwrap();
    assert_eq!(host.com_destroyed_count(), 1);
    assert_eq!(host.release_count(), 1);
}
