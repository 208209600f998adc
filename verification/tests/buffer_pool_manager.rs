use bustub::buffer::buffer_pool_manager::{BufferPoolManager, WritePageGuard};
use bustub::buffer::lru_k_replacer::AccessType;
use bustub::storage::disk::DiskManagerMemory;

const FRAMES: usize = 10;
const K_DIST: usize = 5;

#[test]
fn very_basic_test() {
    let dm = DiskManagerMemory::new();
    let mut bpm = BufferPoolManager::new(FRAMES, dm, K_DIST);

    let pid = bpm.new_page();

    let test_bytes = b"Hello, world!";
    let len = test_bytes.len();

    {
        let guard = bpm.write_page(pid, AccessType::Unknown);
        bpm.write_through_guard(&guard, 0, test_bytes);
        assert_eq!(&bpm.write_guard_data(&guard)[..len], test_bytes);
        bpm.release_write_guard(guard);
    }

    {
        let guard = bpm.read_page(pid, AccessType::Unknown);
        let data = bpm.read_guard_data(&guard);
        assert_eq!(&data[..len], test_bytes);
        bpm.release_read_guard(guard);
    }

    {
        let guard = bpm.read_page(pid, AccessType::Unknown);
        let data = bpm.read_guard_data(&guard);
        assert_eq!(&data[..len], test_bytes);
        bpm.release_read_guard(guard);
    }

    assert!(bpm.delete_page(pid));
}

#[test]
fn page_pin_easy_test() {
    let dm = DiskManagerMemory::new();
    let mut bpm = BufferPoolManager::new(2, dm, 5);

    let page_id0;
    let page_id1;

    {
        page_id0 = bpm.new_page();
        let page0_write = bpm
            .checked_write_page(page_id0, AccessType::Unknown)
            .expect("should get page0");
        bpm.write_through_guard(&page0_write, 0, b"page0");

        page_id1 = bpm.new_page();
        let page1_write = bpm
            .checked_write_page(page_id1, AccessType::Unknown)
            .expect("should get page1");
        bpm.write_through_guard(&page1_write, 0, b"page1");

        assert_eq!(Some(1), bpm.get_pin_count(page_id0));
        assert_eq!(Some(1), bpm.get_pin_count(page_id1));

        let temp_id1 = bpm.new_page();
        assert!(bpm.checked_read_page(temp_id1, AccessType::Unknown).is_none());

        let temp_id2 = bpm.new_page();
        assert!(bpm
            .checked_write_page(temp_id2, AccessType::Unknown)
            .is_none());

        assert_eq!(Some(1), bpm.get_pin_count(page_id0));
        bpm.release_write_guard(page0_write);
        assert_eq!(Some(0), bpm.get_pin_count(page_id0));

        assert_eq!(Some(1), bpm.get_pin_count(page_id1));
        bpm.release_write_guard(page1_write);
        assert_eq!(Some(0), bpm.get_pin_count(page_id1));
    }

    {
        let temp_id1 = bpm.new_page();
        let temp_read = bpm.checked_read_page(temp_id1, AccessType::Unknown);
        assert!(temp_read.is_some());

        let temp_id2 = bpm.new_page();
        let temp_write = bpm.checked_write_page(temp_id2, AccessType::Unknown);
        assert!(temp_write.is_some());

        assert!(bpm.get_pin_count(page_id0).is_none());
        assert!(bpm.get_pin_count(page_id1).is_none());

        bpm.release_read_guard(temp_read.unwrap());
        bpm.release_write_guard(temp_write.unwrap());
    }

    {
        let page0_write = bpm
            .checked_write_page(page_id0, AccessType::Unknown)
            .expect("page0 should be available");
        assert_eq!(&bpm.write_guard_data(&page0_write)[..5], b"page0");
        bpm.write_through_guard(&page0_write, 0, b"page0updated");

        let page1_write = bpm
            .checked_write_page(page_id1, AccessType::Unknown)
            .expect("page1 should be available");
        assert_eq!(&bpm.write_guard_data(&page1_write)[..5], b"page1");
        bpm.write_through_guard(&page1_write, 0, b"page1updated");

        assert_eq!(Some(1), bpm.get_pin_count(page_id0));
        assert_eq!(Some(1), bpm.get_pin_count(page_id1));

        bpm.release_write_guard(page0_write);
        bpm.release_write_guard(page1_write);
    }

    assert_eq!(Some(0), bpm.get_pin_count(page_id0));
    assert_eq!(Some(0), bpm.get_pin_count(page_id1));

    {
        let page0_read = bpm
            .checked_read_page(page_id0, AccessType::Unknown)
            .expect("page0 should be readable");
        assert_eq!(&bpm.read_guard_data(&page0_read)[..12], b"page0updated");

        let page1_read = bpm
            .checked_read_page(page_id1, AccessType::Unknown)
            .expect("page1 should be readable");
        assert_eq!(&bpm.read_guard_data(&page1_read)[..12], b"page1updated");

        assert_eq!(Some(1), bpm.get_pin_count(page_id0));
        assert_eq!(Some(1), bpm.get_pin_count(page_id1));

        bpm.release_read_guard(page0_read);
        bpm.release_read_guard(page1_read);
    }

    assert_eq!(Some(0), bpm.get_pin_count(page_id0));
    assert_eq!(Some(0), bpm.get_pin_count(page_id1));
}

#[test]
fn page_pin_medium_test() {
    let dm = DiskManagerMemory::new();
    let mut bpm = BufferPoolManager::new(FRAMES, dm, K_DIST);

    let pid0 = bpm.new_page();
    {
        let page0 = bpm.write_page(pid0, AccessType::Unknown);
        let msg = b"Hello";
        bpm.write_through_guard(&page0, 0, msg);
        assert_eq!(&bpm.write_guard_data(&page0)[..msg.len()], msg);
        bpm.release_write_guard(page0);
    }

    let mut pages: Vec<WritePageGuard> = Vec::new();

    for _ in 0..FRAMES {
        let pid = bpm.new_page();
        let page = bpm.write_page(pid, AccessType::Unknown);
        pages.push(page);
    }

    for page in &pages {
        let pid = page.get_page_id();
        assert_eq!(Some(1), bpm.get_pin_count(pid));
    }

    for _ in 0..FRAMES {
        let pid = bpm.new_page();
        assert!(bpm
            .checked_write_page(pid, AccessType::Unknown)
            .is_none());
    }

    for _ in 0..FRAMES / 2 {
        let pid = pages[0].get_page_id();
        assert_eq!(Some(1), bpm.get_pin_count(pid));
        let page = pages.remove(0);
        bpm.release_write_guard(page);
        assert_eq!(Some(0), bpm.get_pin_count(pid));
    }

    for page in &pages {
        assert_eq!(Some(1), bpm.get_pin_count(page.get_page_id()));
    }

    for _ in 0..(FRAMES / 2) - 1 {
        let pid = bpm.new_page();
        let page = bpm.write_page(pid, AccessType::Unknown);
        pages.push(page);
    }

    {
        let first_page = bpm.read_page(pid0, AccessType::Unknown);
        assert_eq!(&bpm.read_guard_data(&first_page)[..5], b"Hello");
        bpm.release_read_guard(first_page);
    }

    let last_pid = bpm.new_page();
    let _last_page = bpm.read_page(last_pid, AccessType::Unknown);

    assert!(bpm.checked_read_page(pid0, AccessType::Unknown).is_none());
}
