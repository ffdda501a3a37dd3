use loong_mani_sdk::param::LoongManiParam;

#[test]
fn param_getters_return_the_configuration() {
    let param = LoongManiParam::new(19, 7, 1, 1, 2, 3, "192.168.1.201:8003".to_string());
    assert_eq!(param.jnt_num(), 19);
    assert_eq!(param.arm_dof(), 7);
    assert_eq!(param.finger_dof_left(), 1);
    assert_eq!(param.finger_dof_right(), 1);
    assert_eq!(param.neck_dof(), 2);
    assert_eq!(param.lumbar_dof(), 3);
    assert_eq!(param.target_addr(), "192.168.1.201:8003");
}
