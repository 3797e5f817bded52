use modbus_iiot::timing::compute_milliseconds;
use std::time::Duration;

#[test]
fn test_compute_milliseconds ( )
{
    let test_data : Duration = Duration::new ( 0, 
                                               2000000 );

    let result_data = compute_milliseconds ( &test_data );
    assert_eq! ( result_data, 2 );
}
